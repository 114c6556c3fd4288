//! Team summaries and the parsing of `git diff --numstat` and
//! `git diff --name-status` output into per-file statistics.
use crate::text::{
    bounds_within, chars_of, line_bounds, lines, parse_u32, parse_u32_at,
    pieces, split, split_bounds, string_of,
};
use vstd::prelude::*;

verus! {

#[derive(Debug, Clone)]
pub struct FileStat {
    pub path: String,
    pub additions: u32,
    pub deletions: u32,
    pub status: String,
}

impl View for FileStat {
    type V = (Seq<char>, u32, u32, Seq<char>);

    open spec fn view(&self) -> Self::V {
        (self.path@, self.additions, self.deletions, self.status@)
    }
}

#[derive(Debug, Clone)]
pub struct DiffSummary {
    pub files_changed: u32,
    pub additions: u32,
    pub deletions: u32,
    pub files: Vec<FileStat>,
}

#[derive(Debug, Clone)]
pub struct MemberSummary {
    pub name: String,
    pub agent_type: String,
    pub model: String,
    pub cwd: String,
    pub is_active: bool,
    pub color: Option<String>,
    pub diff_summary: Option<DiffSummary>,
}

#[derive(Debug, Clone)]
pub struct TaskSummary {
    pub id: String,
    pub subject: String,
    pub status: String,
    pub owner: Option<String>,
}

#[derive(Debug, Clone)]
pub struct ConflictInfo {
    pub path: String,
    pub members: Vec<String>,
}

#[derive(Debug, Clone)]
pub struct TeamSummary {
    pub name: String,
    pub description: String,
    pub created_at: u64,
    pub archived: bool,
    pub members: Vec<MemberSummary>,
    pub tasks: Vec<TaskSummary>,
    pub conflicts: Vec<ConflictInfo>,
}

#[derive(Debug, Clone)]
pub struct MemberDiffDetail {
    pub name: String,
    pub team: String,
    pub cwd: String,
    pub baseline_commit: Option<String>,
    pub current_commit: Option<String>,
    pub diff: String,
}

/// The map that a list of insertions leaves, a later insertion of a key
/// replacing an earlier one.
pub open spec fn map_of(entries: Seq<(Seq<char>, Seq<char>)>) -> Map<Seq<char>, Seq<char>>
    decreases entries.len(),
{
    if entries.len() == 0 {
        Map::empty()
    } else {
        map_of(entries.drop_last()).insert(entries.last().0, entries.last().1)
    }
}

/// A map from file path to change status.
#[derive(Debug, Clone)]
pub struct StatusMap {
    entries: Vec<(String, String)>,
}

impl StatusMap {
    pub closed spec fn entries_view(&self) -> Seq<(Seq<char>, Seq<char>)> {
        self.entries@.map_values(|e: (String, String)| (e.0@, e.1@))
    }
}

impl View for StatusMap {
    type V = Map<Seq<char>, Seq<char>>;

    open spec fn view(&self) -> Self::V {
        map_of(self.entries_view())
    }
}

proof fn lemma_map_of_skip(entries: Seq<(Seq<char>, Seq<char>)>, i: int, k: Seq<char>)
    requires
        0 <= i <= entries.len(),
        forall|j: int| i <= j < entries.len() ==> (#[trigger] entries[j]).0 != k,
    ensures
        map_of(entries).contains_key(k) == map_of(entries.subrange(0, i)).contains_key(k),
        map_of(entries).contains_key(k) ==> map_of(entries)[k] == map_of(entries.subrange(0, i))[k],
    decreases entries.len() - i,
{
    if i < entries.len() {
        assert(entries.drop_last() =~= entries.subrange(0, entries.len() - 1));
        lemma_map_of_skip(entries.drop_last(), i, k);
        assert(entries.drop_last().subrange(0, i) =~= entries.subrange(0, i));
    } else {
        assert(entries.subrange(0, i) =~= entries);
    }
}

impl StatusMap {
    pub fn new() -> (r: StatusMap)
        ensures
            r@ == Map::<Seq<char>, Seq<char>>::empty(),
    {
        let r = StatusMap { entries: Vec::new() };
        assert(r.entries_view() =~= Seq::<(Seq<char>, Seq<char>)>::empty());
        r
    }

    /// Sets the status of a path, replacing any earlier one.
    pub fn insert(&mut self, path: String, status: String)
        ensures
            final(self)@ == old(self)@.insert(path@, status@),
    {
        let ghost p = path@;
        let ghost st = status@;
        self.entries.push((path, status));
        assert(self.entries_view().drop_last() =~= old(self).entries_view());
        assert(self.entries_view().last() == (p, st));
    }

    /// The status of a path, if it has one.
    pub fn get(&self, path: &str) -> (r: Option<&String>)
        ensures
            r is Some == self@.contains_key(path@),
            r is Some ==> r->0@ == self@[path@],
    {
        let key = String::from_str(path);
        let ghost ev = self.entries_view();
        let mut i: usize = self.entries.len();
        while i > 0
            invariant
                i <= self.entries@.len(),
                ev == self.entries_view(),
                key@ == path@,
                forall|j: int| i <= j < ev.len() ==> (#[trigger] ev[j]).0 != path@,
            decreases i,
        {
            if self.entries[i - 1].0 == key {
                proof {
                    let sub = ev.subrange(0, i as int);
                    lemma_map_of_skip(ev, i as int, path@);
                    assert(sub.drop_last() =~= ev.subrange(0, i - 1));
                    assert(sub.last() == ev[i - 1]);
                }
                return Some(&self.entries[i - 1].1);
            }
            i = i - 1;
        }
        proof {
            lemma_map_of_skip(ev, 0, path@);
            assert(ev.subrange(0, 0) =~= Seq::<(Seq<char>, Seq<char>)>::empty());
        }
        None
    }
}

/// The change status that a `--name-status` code stands for.
pub open spec fn status_word(code: Seq<char>) -> Seq<char> {
    if code.len() > 0 && (code[0] == 'A' || code[0] == 'C') {
        "added"@
    } else if code.len() > 0 && code[0] == 'D' {
        "deleted"@
    } else {
        "modified"@
    }
}

/// The statuses that the first lines of `--name-status` output give: each
/// line of two or more tab-separated fields maps its last field (the new
/// path of a rename or copy) to the status of its code.
pub open spec fn name_status_of(ls: Seq<Seq<char>>) -> Map<Seq<char>, Seq<char>>
    decreases ls.len(),
{
    if ls.len() == 0 {
        Map::empty()
    } else {
        let m = name_status_of(ls.drop_last());
        let f = split(ls.last(), '\t');
        if f.len() < 2 {
            m
        } else {
            m.insert(f.last(), status_word(f[0]))
        }
    }
}

fn status_word_at(cs: &Vec<char>, lo: usize, hi: usize) -> (r: String)
    requires
        lo <= hi <= cs@.len(),
    ensures
        r@ == status_word(cs@.subrange(lo as int, hi as int)),
{
    let ghost code = cs@.subrange(lo as int, hi as int);
    if lo < hi && (cs[lo] == 'A' || cs[lo] == 'C') {
        assert(code[0] == cs@[lo as int]);
        String::from_str("added")
    } else if lo < hi && cs[lo] == 'D' {
        assert(code[0] == cs@[lo as int]);
        String::from_str("deleted")
    } else {
        assert(code.len() > 0 ==> code[0] == cs@[lo as int]);
        String::from_str("modified")
    }
}

/// Parses `git diff --name-status` output into a map from path to status.
pub fn parse_name_status(output: &str) -> (r: StatusMap)
    ensures
        r@ == name_status_of(lines(output@)),
{
    let cs = chars_of(output);
    let ls = line_bounds(&cs);
    let ghost all = lines(cs@);
    let mut map = StatusMap::new();
    let mut k: usize = 0;
    while k < ls.len()
        invariant
            k <= ls@.len(),
            bounds_within(ls@, 0, cs@.len() as int),
            pieces(cs@, ls@) == all,
            map@ == name_status_of(all.subrange(0, k as int)),
        decreases ls@.len() - k,
    {
        let (a, b) = ls[k];
        let ghost line = cs@.subrange(a as int, b as int);
        assert(line == all[k as int]);
        let fields = split_bounds(&cs, a, b, '\t');
        assert(all.subrange(0, k + 1).drop_last() =~= all.subrange(0, k as int));
        assert(all.subrange(0, k + 1).last() == line);
        if fields.len() >= 2 {
            let (c0, c1) = fields[0];
            let (p0, p1) = fields[fields.len() - 1];
            let status = status_word_at(&cs, c0, c1);
            let path = string_of(vstd::slice::slice_subrange(cs.as_slice(), p0, p1));
            map.insert(path, status);
        }
        k = k + 1;
    }
    assert(all.subrange(0, ls@.len() as int) =~= all);
    map
}

/// The file statistics that the first lines of `--numstat` output give:
/// each line of three or more tab-separated fields gives its path (third
/// field), additions and deletions (first two fields, zero where they are
/// not numbers, as for binary files) and the status that `statuses` holds
/// for the path, or `modified`.
pub open spec fn numstat_of(ls: Seq<Seq<char>>, statuses: Map<Seq<char>, Seq<char>>) -> Seq<
    (Seq<char>, u32, u32, Seq<char>),
>
    decreases ls.len(),
{
    if ls.len() == 0 {
        Seq::empty()
    } else {
        let prev = numstat_of(ls.drop_last(), statuses);
        let f = split(ls.last(), '\t');
        if f.len() < 3 {
            prev
        } else {
            prev.push(
                (
                    f[2],
                    match parse_u32(f[0]) {
                        Some(v) => v,
                        None => 0,
                    },
                    match parse_u32(f[1]) {
                        Some(v) => v,
                        None => 0,
                    },
                    if statuses.contains_key(f[2]) {
                        statuses[f[2]]
                    } else {
                        "modified"@
                    },
                ),
            )
        }
    }
}

/// Parses `git diff --numstat` output into per-file statistics, in the
/// order of the lines.
pub fn parse_numstat(output: &str, statuses: &StatusMap) -> (r: Vec<FileStat>)
    ensures
        r@.map_values(|f: FileStat| f@) == numstat_of(lines(output@), statuses@),
{
    let cs = chars_of(output);
    let ls = line_bounds(&cs);
    let ghost all = lines(cs@);
    let mut files: Vec<FileStat> = Vec::new();
    let mut k: usize = 0;
    while k < ls.len()
        invariant
            k <= ls@.len(),
            bounds_within(ls@, 0, cs@.len() as int),
            pieces(cs@, ls@) == all,
            files@.map_values(|f: FileStat| f@) == numstat_of(all.subrange(0, k as int), statuses@),
        decreases ls@.len() - k,
    {
        let (a, b) = ls[k];
        let ghost line = cs@.subrange(a as int, b as int);
        assert(line == all[k as int]);
        let fields = split_bounds(&cs, a, b, '\t');
        assert(all.subrange(0, k + 1).drop_last() =~= all.subrange(0, k as int));
        assert(all.subrange(0, k + 1).last() == line);
        if fields.len() >= 3 {
            let (a0, a1) = fields[0];
            let (d0, d1) = fields[1];
            let (p0, p1) = fields[2];
            let additions = match parse_u32_at(&cs, a0, a1) {
                Some(v) => v,
                None => 0,
            };
            let deletions = match parse_u32_at(&cs, d0, d1) {
                Some(v) => v,
                None => 0,
            };
            let path = string_of(vstd::slice::slice_subrange(cs.as_slice(), p0, p1));
            let status = match statuses.get(path.as_str()) {
                Some(s) => s.clone(),
                None => String::from_str("modified"),
            };
            let ghost before = files@.map_values(|f: FileStat| f@);
            files.push(FileStat { path, additions, deletions, status });
            assert(files@.map_values(|f: FileStat| f@) =~= before.push(files@.last()@));
        }
        k = k + 1;
    }
    assert(all.subrange(0, ls@.len() as int) =~= all);
    files
}

/// The (path, member) pairs of a list of members: for each member with a
/// diff summary, in order, each of its changed files' paths with its name.
pub open spec fn owner_pairs(ms: Seq<MemberSummary>) -> Seq<(Seq<char>, Seq<char>)>
    decreases ms.len(),
{
    if ms.len() == 0 {
        Seq::empty()
    } else {
        let m = ms.last();
        owner_pairs(ms.drop_last()) + match m.diff_summary {
            Some(d) => d.files@.map_values(|f: FileStat| (f.path@, m.name@)),
            None => Seq::empty(),
        }
    }
}

/// The distinct paths of a list of pairs, in order of first appearance.
pub open spec fn distinct_paths(ps: Seq<(Seq<char>, Seq<char>)>) -> Seq<Seq<char>>
    decreases ps.len(),
{
    if ps.len() == 0 {
        Seq::empty()
    } else {
        let d = distinct_paths(ps.drop_last());
        if d.contains(ps.last().0) {
            d
        } else {
            d.push(ps.last().0)
        }
    }
}

/// The members paired with a path, in order.
pub open spec fn owners_of(ps: Seq<(Seq<char>, Seq<char>)>, p: Seq<char>) -> Seq<Seq<char>>
    decreases ps.len(),
{
    if ps.len() == 0 {
        Seq::empty()
    } else {
        let o = owners_of(ps.drop_last(), p);
        if ps.last().0 == p {
            o.push(ps.last().1)
        } else {
            o
        }
    }
}

/// The conflicts among the first paths of `paths`: each path that more
/// than one entry of `ps` changes, with those members.
pub open spec fn conflicts_among(paths: Seq<Seq<char>>, ps: Seq<(Seq<char>, Seq<char>)>) -> Seq<
    (Seq<char>, Seq<Seq<char>>),
>
    decreases paths.len(),
{
    if paths.len() == 0 {
        Seq::empty()
    } else {
        let prev = conflicts_among(paths.drop_last(), ps);
        let o = owners_of(ps, paths.last());
        if o.len() > 1 {
            prev.push((paths.last(), o))
        } else {
            prev
        }
    }
}

impl View for ConflictInfo {
    type V = (Seq<char>, Seq<Seq<char>>);

    open spec fn view(&self) -> Self::V {
        (self.path@, self.members@.map_values(|s: String| s@))
    }
}

/// The files that more than one member changed, each with the members that
/// changed it, in order of first appearance.
pub open spec fn conflicts_spec(ms: Seq<MemberSummary>) -> Seq<(Seq<char>, Seq<Seq<char>>)> {
    conflicts_among(distinct_paths(owner_pairs(ms)), owner_pairs(ms))
}

fn pair_list(members: &[MemberSummary]) -> (r: Vec<(String, String)>)
    ensures
        r@.map_values(|e: (String, String)| (e.0@, e.1@)) == owner_pairs(members@),
{
    let mut out: Vec<(String, String)> = Vec::new();
    let mut i: usize = 0;
    while i < members.len()
        invariant
            i <= members@.len(),
            out@.map_values(|e: (String, String)| (e.0@, e.1@)) == owner_pairs(members@.subrange(0, i as int)),
        decreases members@.len() - i,
    {
        let m = &members[i];
        let ghost prefix = out@.map_values(|e: (String, String)| (e.0@, e.1@));
        let ghost next = members@.subrange(0, i + 1);
        assert(next.drop_last() =~= members@.subrange(0, i as int));
        assert(next.last() == *m);
        match &m.diff_summary {
            Some(d) => {
                let ghost target = d.files@.map_values(|f: FileStat| (f.path@, m.name@));
                let mut j: usize = 0;
                while j < d.files.len()
                    invariant
                        j <= d.files@.len(),
                        target == d.files@.map_values(|f: FileStat| (f.path@, m.name@)),
                        out@.map_values(|e: (String, String)| (e.0@, e.1@)) == prefix + target.subrange(0, j as int),
                    decreases d.files@.len() - j,
                {
                    let ghost before = out@.map_values(|e: (String, String)| (e.0@, e.1@));
                    out.push((d.files[j].path.clone(), m.name.clone()));
                    assert(out@.map_values(|e: (String, String)| (e.0@, e.1@)) =~= before.push((d.files@[j as int].path@, m.name@)));
                    assert(target.subrange(0, j + 1) =~= target.subrange(0, j as int).push(target[j as int]));
                    j = j + 1;
                }
                assert(target.subrange(0, d.files@.len() as int) =~= target);
            },
            None => {
                assert(prefix + Seq::<(Seq<char>, Seq<char>)>::empty() =~= prefix);
            },
        }
        i = i + 1;
    }
    assert(members@.subrange(0, members@.len() as int) =~= members@);
    out
}

fn contains_string(v: &Vec<String>, x: &String) -> (r: bool)
    ensures
        r == v@.map_values(|s: String| s@).contains(x@),
{
    let ghost vv = v@.map_values(|s: String| s@);
    let mut i: usize = 0;
    while i < v.len()
        invariant
            i <= v@.len(),
            vv == v@.map_values(|s: String| s@),
            forall|k: int| 0 <= k < i ==> vv[k] != x@,
        decreases v@.len() - i,
    {
        if v[i] == *x {
            assert(vv[i as int] == x@);
            return true;
        }
        i = i + 1;
    }
    false
}

/// Finds the files that more than one member changed since its baseline.
pub fn detect_conflicts(members: &[MemberSummary]) -> (r: Vec<ConflictInfo>)
    ensures
        r@.map_values(|c: ConflictInfo| c@) == conflicts_spec(members@),
{
    let pairs = pair_list(members);
    let ghost ps = pairs@.map_values(|e: (String, String)| (e.0@, e.1@));
    let mut paths: Vec<String> = Vec::new();
    let mut i: usize = 0;
    while i < pairs.len()
        invariant
            i <= pairs@.len(),
            ps == pairs@.map_values(|e: (String, String)| (e.0@, e.1@)),
            paths@.map_values(|s: String| s@) == distinct_paths(ps.subrange(0, i as int)),
        decreases pairs@.len() - i,
    {
        let ghost next = ps.subrange(0, i + 1);
        assert(next.drop_last() =~= ps.subrange(0, i as int));
        assert(next.last() == ps[i as int]);
        if !contains_string(&paths, &pairs[i].0) {
            let ghost before = paths@.map_values(|s: String| s@);
            paths.push(pairs[i].0.clone());
            assert(paths@.map_values(|s: String| s@) =~= before.push(pairs@[i as int].0@));
        }
        i = i + 1;
    }
    assert(ps.subrange(0, pairs@.len() as int) =~= ps);
    let ghost dp = paths@.map_values(|s: String| s@);
    let mut out: Vec<ConflictInfo> = Vec::new();
    let mut k: usize = 0;
    while k < paths.len()
        invariant
            k <= paths@.len(),
            ps == pairs@.map_values(|e: (String, String)| (e.0@, e.1@)),
            dp == paths@.map_values(|s: String| s@),
            out@.map_values(|c: ConflictInfo| c@) == conflicts_among(dp.subrange(0, k as int), ps),
        decreases paths@.len() - k,
    {
        let p = &paths[k];
        let mut owners: Vec<String> = Vec::new();
        let mut j: usize = 0;
        while j < pairs.len()
            invariant
                j <= pairs@.len(),
                ps == pairs@.map_values(|e: (String, String)| (e.0@, e.1@)),
                owners@.map_values(|s: String| s@) == owners_of(ps.subrange(0, j as int), p@),
            decreases pairs@.len() - j,
        {
            let ghost next = ps.subrange(0, j + 1);
            assert(next.drop_last() =~= ps.subrange(0, j as int));
            assert(next.last() == ps[j as int]);
            if pairs[j].0 == *p {
                let ghost before = owners@.map_values(|s: String| s@);
                owners.push(pairs[j].1.clone());
                assert(owners@.map_values(|s: String| s@) =~= before.push(pairs@[j as int].1@));
            }
            j = j + 1;
        }
        assert(ps.subrange(0, pairs@.len() as int) =~= ps);
        let ghost next = dp.subrange(0, k + 1);
        assert(next.drop_last() =~= dp.subrange(0, k as int));
        assert(next.last() == p@);
        if owners.len() > 1 {
            let ghost before = out@.map_values(|c: ConflictInfo| c@);
            out.push(ConflictInfo { path: p.clone(), members: owners });
            assert(out@.map_values(|c: ConflictInfo| c@) =~= before.push(out@.last()@));
        }
        k = k + 1;
    }
    assert(dp.subrange(0, paths@.len() as int) =~= dp);
    out
}

pub open spec fn total_additions(fs: Seq<FileStat>) -> nat
    decreases fs.len(),
{
    if fs.len() == 0 {
        0
    } else {
        total_additions(fs.drop_last()) + fs.last().additions as nat
    }
}

pub open spec fn total_deletions(fs: Seq<FileStat>) -> nat
    decreases fs.len(),
{
    if fs.len() == 0 {
        0
    } else {
        total_deletions(fs.drop_last()) + fs.last().deletions as nat
    }
}

pub open spec fn capped(n: nat) -> u32 {
    if n > u32::MAX {
        u32::MAX
    } else {
        n as u32
    }
}

proof fn lemma_totals_monotone(fs: Seq<FileStat>, i: int, j: int)
    requires
        0 <= i <= j <= fs.len(),
    ensures
        total_additions(fs.subrange(0, i)) <= total_additions(fs.subrange(0, j)),
        total_deletions(fs.subrange(0, i)) <= total_deletions(fs.subrange(0, j)),
    decreases j - i,
{
    if i < j {
        assert(fs.subrange(0, j).drop_last() =~= fs.subrange(0, j - 1));
        lemma_totals_monotone(fs, i, j - 1);
    }
}

impl DiffSummary {
    /// The summary of a member's changed files: how many there are and the
    /// total additions and deletions, each held at `u32::MAX` rather than
    /// wrapped.
    pub fn from_files(files: Vec<FileStat>) -> (r: DiffSummary)
        ensures
            r.files@ == files@,
            r.files_changed == capped(files@.len()),
            r.additions == capped(total_additions(files@)),
            r.deletions == capped(total_deletions(files@)),
    {
        let mut additions: u32 = 0;
        let mut deletions: u32 = 0;
        let mut i: usize = 0;
        while i < files.len()
            invariant
                i <= files@.len(),
                additions == capped(total_additions(files@.subrange(0, i as int))),
                deletions == capped(total_deletions(files@.subrange(0, i as int))),
            decreases files@.len() - i,
        {
            let ghost next = files@.subrange(0, i + 1);
            assert(next.drop_last() =~= files@.subrange(0, i as int));
            proof {
                lemma_totals_monotone(files@, i as int, i + 1);
            }
            additions = additions.saturating_add(files[i].additions);
            deletions = deletions.saturating_add(files[i].deletions);
            i = i + 1;
        }
        assert(files@.subrange(0, files@.len() as int) =~= files@);
        let files_changed: u32 = if files.len() > u32::MAX as usize {
            u32::MAX
        } else {
            files.len() as u32
        };
        DiffSummary { files_changed, additions, deletions, files }
    }
}

} // verus!
