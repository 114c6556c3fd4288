//! The local registry of running nodes: which daemons run on this machine
//! and at which address they can be reached.
use crate::text::{decimal, decimal_string};
use vstd::prelude::*;

verus! {

#[derive(Debug, Clone)]
pub struct Node {
    pub id: String,
    pub name: String,
    pub url: String,
    pub started_at: String,
    pub os: String,
    pub arch: String,
    pub daemon_version: String,
}

/// The answer of the server to a heartbeat.
#[derive(Debug, Clone, Copy, PartialEq, Eq)]
pub enum HeartbeatResult {
    /// The server knows the node.
    Alive,
    /// The server forgot the node, which must register again.
    NodeExpired,
}

pub const NOT_FOUND: u16 = 404;

/// The meaning of a heartbeat's HTTP status: not found means the node
/// expired; another client or server error status is a failure (`None`);
/// anything else is success.
pub fn heartbeat_outcome(status: u16) -> (r: Option<HeartbeatResult>)
    ensures
        r == (if status == NOT_FOUND {
            Some(HeartbeatResult::NodeExpired)
        } else if 400 <= status <= 599 {
            None
        } else {
            Some(HeartbeatResult::Alive)
        }),
{
    if status == NOT_FOUND {
        Some(HeartbeatResult::NodeExpired)
    } else if 400 <= status && status <= 599 {
        None
    } else {
        Some(HeartbeatResult::Alive)
    }
}

/// A node's identifier: host name and port joined by `-`.
pub fn node_id(hostname: &str, port: u16) -> (r: String)
    ensures
        r@ == hostname@ + "-"@ + decimal(port as nat),
{
    let s = String::from_str(hostname).concat("-");
    let p = decimal_string(port as u64);
    s.concat(p.as_str())
}

/// A node's address: the configured public address, or the local one on
/// the given port.
pub fn node_url(port: u16, url_override: Option<&str>) -> (r: String)
    ensures
        r@ == match url_override {
            Some(u) => u@,
            None => "http://localhost:"@ + decimal(port as nat),
        },
{
    match url_override {
        Some(u) => String::from_str(u),
        None => {
            let p = decimal_string(port as u64);
            String::from_str("http://localhost:").concat(p.as_str())
        },
    }
}

/// The key a node is matched on: its identifier or its address.
pub open spec fn node_key(n: Node, by_url: bool) -> Seq<char> {
    if by_url {
        n.url@
    } else {
        n.id@
    }
}

/// The nodes whose key differs from `key`, in order.
pub open spec fn without_key(ns: Seq<Node>, key: Seq<char>, by_url: bool) -> Seq<Node>
    decreases ns.len(),
{
    if ns.len() == 0 {
        Seq::empty()
    } else {
        let rest = without_key(ns.drop_last(), key, by_url);
        if node_key(ns.last(), by_url) == key {
            rest
        } else {
            rest.push(ns.last())
        }
    }
}

proof fn lemma_without_key_len(ns: Seq<Node>, key: Seq<char>, by_url: bool)
    ensures
        without_key(ns, key, by_url).len() <= ns.len(),
        without_key(ns, key, by_url).len() == ns.len() <==> forall|i: int|
            0 <= i < ns.len() ==> node_key(#[trigger] ns[i], by_url) != key,
    decreases ns.len(),
{
    if ns.len() > 0 {
        lemma_without_key_len(ns.drop_last(), key, by_url);
        if forall|i: int| 0 <= i < ns.len() ==> node_key(#[trigger] ns[i], by_url) != key {
            assert forall|i: int| 0 <= i < ns.drop_last().len() implies node_key(
                #[trigger] ns.drop_last()[i],
                by_url,
            ) != key by {
                assert(ns.drop_last()[i] == ns[i]);
            }
            assert(node_key(ns[ns.len() - 1], by_url) != key);
        }
        if forall|i: int| 0 <= i < ns.drop_last().len() ==> node_key(#[trigger] ns.drop_last()[i], by_url) != key {
            if node_key(ns.last(), by_url) != key {
                assert forall|i: int| 0 <= i < ns.len() implies node_key(#[trigger] ns[i], by_url) != key by {
                    if i < ns.len() - 1 {
                        assert(ns.drop_last()[i] == ns[i]);
                    }
                }
            }
        }
    }
}

fn remove_matching(nodes: &mut Vec<Node>, key: &String, by_url: bool)
    ensures
        final(nodes)@ == without_key(old(nodes)@, key@, by_url),
{
    let ghost all = nodes@;
    let mut rest: Vec<Node> = Vec::new();
    core::mem::swap(nodes, &mut rest);
    let ghost mut k: int = 0;
    assert(without_key(all.subrange(0, 0), key@, by_url) =~= Seq::<Node>::empty());
    while rest.len() > 0
        invariant
            0 <= k <= all.len(),
            rest@ == all.subrange(k, all.len() as int),
            nodes@ == without_key(all.subrange(0, k), key@, by_url),
        decreases rest@.len(),
    {
        let n = rest.remove(0);
        assert(n == all[k]);
        let ghost next = all.subrange(0, k + 1);
        assert(next.drop_last() =~= all.subrange(0, k));
        assert(next.last() == n);
        let same = if by_url {
            n.url == *key
        } else {
            n.id == *key
        };
        if !same {
            nodes.push(n);
        }
        proof {
            k = k + 1;
        }
        assert(rest@ =~= all.subrange(k, all.len() as int));
    }
    assert(all.subrange(0, k) =~= all);
}

/// Removes the nodes with the given identifier; true when one was removed,
/// which is when the registry has to be written back.
pub fn deregister(nodes: &mut Vec<Node>, id: &str) -> (r: bool)
    ensures
        final(nodes)@ == without_key(old(nodes)@, id@, false),
        r == (final(nodes)@.len() < old(nodes)@.len()),
        r == exists|i: int| 0 <= i < old(nodes)@.len() && (#[trigger] old(nodes)@[i]).id@ == id@,
{
    let before = nodes.len();
    let key = String::from_str(id);
    remove_matching(nodes, &key, false);
    proof {
        lemma_without_key_len(old(nodes)@, id@, false);
    }
    nodes.len() < before
}

/// Adds a node, replacing those registered at the same address.
pub fn register(nodes: &mut Vec<Node>, node: Node)
    ensures
        final(nodes)@ == without_key(old(nodes)@, node.url@, true).push(node),
{
    let key = node.url.clone();
    remove_matching(nodes, &key, true);
    nodes.push(node);
}

} // verus!
