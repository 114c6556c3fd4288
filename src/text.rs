//! Splitting text into fields and lines, and reading and writing decimal
//! numbers, over character sequences.
use vstd::prelude::*;

verus! {

/// Relies on `String::push`: appends one character.
#[verifier::external_body]
fn push_char(s: &mut String, c: char)
    ensures
        final(s)@ == old(s)@.push(c),
{
    s.push(c)
}

/// The characters of `s`, in order.
pub fn chars_of(s: &str) -> (r: Vec<char>)
    ensures
        r@ == s@,
{
    broadcast use vstd::string::group_string_axioms;

    let mut out: Vec<char> = Vec::new();
    for c in it: s.chars()
        invariant
            out@ == it.seq().subrange(0, it.index() as int),
    {
        out.push(c);
    }
    out
}

/// The string of exactly the given characters.
pub fn string_of(cs: &[char]) -> (r: String)
    ensures
        r@ == cs@,
{
    let mut out = String::new();
    let mut i: usize = 0;
    while i < cs.len()
        invariant
            i <= cs@.len(),
            out@ == cs@.subrange(0, i as int),
        decreases cs@.len() - i,
    {
        push_char(&mut out, cs[i]);
        assert(out@ =~= cs@.subrange(0, i + 1));
        i = i + 1;
    }
    assert(cs@.subrange(0, cs@.len() as int) =~= cs@);
    out
}

/// The pieces of `s` between occurrences of `sep`, as `str::split` gives
/// them: one more piece than there are separators.
pub open spec fn split(s: Seq<char>, sep: char) -> Seq<Seq<char>>
    decreases s.len(),
{
    if s.len() == 0 {
        seq![Seq::<char>::empty()]
    } else {
        let p = split(s.drop_last(), sep);
        if s.last() == sep {
            p.push(Seq::<char>::empty())
        } else {
            p.update(p.len() - 1, p.last().push(s.last()))
        }
    }
}

pub proof fn lemma_split_nonempty(s: Seq<char>, sep: char)
    ensures
        split(s, sep).len() >= 1,
    decreases s.len(),
{
    if s.len() > 0 {
        lemma_split_nonempty(s.drop_last(), sep);
    }
}

/// The lines of `s` as `str::lines` gives them: split at `\n`, without an
/// empty piece after a final `\n`, and with a `\r` before a `\n` removed.
pub open spec fn lines(s: Seq<char>) -> Seq<Seq<char>> {
    let parts = split(s, '\n');
    let kept = if parts.last().len() == 0 {
        parts.drop_last()
    } else {
        parts
    };
    Seq::new(
        kept.len(),
        |i: int|
            if i < parts.len() - 1 && kept[i].len() > 0 && kept[i].last() == '\r' {
                kept[i].drop_last()
            } else {
                kept[i]
            },
    )
}

/// The characters that a list of bounds picks out of `cs`.
pub open spec fn pieces(cs: Seq<char>, bounds: Seq<(usize, usize)>) -> Seq<Seq<char>> {
    Seq::new(bounds.len(), |k: int| cs.subrange(bounds[k].0 as int, bounds[k].1 as int))
}

pub open spec fn bounds_within(bounds: Seq<(usize, usize)>, lo: int, hi: int) -> bool {
    forall|k: int|
        0 <= k < bounds.len() ==> lo <= (#[trigger] bounds[k]).0 <= bounds[k].1 <= hi
}

/// The bounds of the pieces of `cs[lo..hi]` between occurrences of `sep`.
pub fn split_bounds(cs: &Vec<char>, lo: usize, hi: usize, sep: char) -> (r: Vec<(usize, usize)>)
    requires
        lo <= hi <= cs@.len(),
    ensures
        bounds_within(r@, lo as int, hi as int),
        pieces(cs@, r@) == split(cs@.subrange(lo as int, hi as int), sep),
{
    let mut out: Vec<(usize, usize)> = Vec::new();
    let mut start: usize = lo;
    let mut i: usize = lo;
    proof {
        assert(cs@.subrange(lo as int, lo as int) =~= Seq::<char>::empty());
        assert(pieces(cs@, out@.push((start, i))) =~= split(cs@.subrange(lo as int, i as int), sep));
    }
    while i < hi
        invariant
            lo <= start <= i <= hi <= cs@.len(),
            bounds_within(out@, lo as int, start as int),
            pieces(cs@, out@.push((start, i))) == split(cs@.subrange(lo as int, i as int), sep),
        decreases hi - i,
    {
        let ghost before = cs@.subrange(lo as int, i as int);
        let ghost after = cs@.subrange(lo as int, i + 1);
        assert(after.drop_last() =~= before);
        assert(after.last() == cs@[i as int]);
        proof {
            lemma_split_nonempty(before, sep);
        }
        if cs[i] == sep {
            out.push((start, i));
            start = i + 1;
            i = i + 1;
            assert(cs@.subrange(start as int, i as int) =~= Seq::<char>::empty());
            assert(pieces(cs@, out@.push((start, i))) =~= split(after, sep));
        } else {
            i = i + 1;
            let ghost prev = cs@.subrange(start as int, i - 1);
            assert(cs@.subrange(start as int, i as int) =~= prev.push(cs@[i - 1]));
            assert(pieces(cs@, out@.push((start, i))) =~= split(after, sep));
        }
    }
    out.push((start, i));
    out
}

/// The bounds of the lines of `cs`.
pub fn line_bounds(cs: &Vec<char>) -> (r: Vec<(usize, usize)>)
    ensures
        bounds_within(r@, 0, cs@.len() as int),
        pieces(cs@, r@) == lines(cs@),
{
    let n = cs.len();
    let parts = split_bounds(cs, 0, n, '\n');
    let ghost whole = cs@.subrange(0, n as int);
    assert(whole =~= cs@);
    proof {
        lemma_split_nonempty(cs@, '\n');
    }
    let count = parts.len();
    let last = parts[count - 1];
    let kept = if last.0 == last.1 {
        count - 1
    } else {
        count
    };
    assert(pieces(cs@, parts@)[count - 1].len() == last.1 - last.0);
    let mut out: Vec<(usize, usize)> = Vec::new();
    let mut k: usize = 0;
    while k < kept
        invariant
            kept <= count == parts@.len(),
            k <= kept,
            out@.len() == k,
            bounds_within(parts@, 0, cs@.len() as int),
            bounds_within(out@, 0, cs@.len() as int),
            pieces(cs@, parts@) == split(cs@, '\n'),
            kept == lines(cs@).len(),
            forall|j: int|
                0 <= j < k ==> cs@.subrange((#[trigger] out@[j]).0 as int, out@[j].1 as int)
                    == lines(cs@)[j],
        decreases kept - k,
    {
        let (a, b) = parts[k];
        let ghost piece = cs@.subrange(a as int, b as int);
        assert(piece == split(cs@, '\n')[k as int]);
        if k + 1 < count && b > a && cs[b - 1] == '\r' {
            out.push((a, b - 1));
            assert(cs@.subrange(a as int, b - 1) =~= piece.drop_last());
        } else {
            out.push((a, b));
        }
        assert(cs@.subrange(out@[k as int].0 as int, out@[k as int].1 as int) == lines(cs@)[k as int]);
        k = k + 1;
    }
    assert(pieces(cs@, out@) =~= lines(cs@));
    out
}

pub open spec fn is_digit(c: char) -> bool {
    '0' <= c && c <= '9'
}

pub open spec fn all_digits(s: Seq<char>) -> bool {
    forall|i: int| 0 <= i < s.len() ==> is_digit(#[trigger] s[i])
}

/// The value of a string of decimal digits.
pub open spec fn digits_value(s: Seq<char>) -> nat
    decreases s.len(),
{
    if s.len() == 0 {
        0
    } else {
        digits_value(s.drop_last()) * 10 + ((s.last() as u32 - '0' as u32) as nat)
    }
}

pub proof fn lemma_digits_monotone(s: Seq<char>, k: int)
    requires
        0 <= k <= s.len(),
    ensures
        digits_value(s.subrange(0, k)) <= digits_value(s),
    decreases s.len() - k,
{
    if k < s.len() {
        assert(s.drop_last() =~= s.subrange(0, s.len() - 1));
        lemma_digits_monotone(s.drop_last(), k);
        assert(s.drop_last().subrange(0, k) =~= s.subrange(0, k));
    } else {
        assert(s.subrange(0, k) =~= s);
    }
}

/// What `u32::from_str` accepts: an optional `+`, then one or more decimal
/// digits, with a value in range.
pub open spec fn parse_u32(s: Seq<char>) -> Option<u32> {
    let digits = if s.len() > 0 && s[0] == '+' {
        s.drop_first()
    } else {
        s
    };
    if digits.len() > 0 && all_digits(digits) && digits_value(digits) <= u32::MAX {
        Some(digits_value(digits) as u32)
    } else {
        None
    }
}

/// Reads `cs[lo..hi]` as a `u32`.
pub fn parse_u32_at(cs: &Vec<char>, lo: usize, hi: usize) -> (r: Option<u32>)
    requires
        lo <= hi <= cs@.len(),
    ensures
        r == parse_u32(cs@.subrange(lo as int, hi as int)),
{
    let ghost s = cs@.subrange(lo as int, hi as int);
    let mut i: usize = lo;
    if lo < hi && cs[lo] == '+' {
        i = lo + 1;
    }
    let ghost digits = cs@.subrange(i as int, hi as int);
    assert(s.len() > 0 && s[0] == '+' ==> digits =~= s.drop_first());
    assert(!(s.len() > 0 && s[0] == '+') ==> digits =~= s);
    if i >= hi {
        return None;
    }
    let mut acc: u64 = 0;
    let mut j: usize = i;
    while j < hi
        invariant
            lo <= i <= j <= hi <= cs@.len(),
            digits == cs@.subrange(i as int, hi as int),
            s == cs@.subrange(lo as int, hi as int),
            s.len() > 0 && s[0] == '+' ==> digits == s.drop_first(),
            !(s.len() > 0 && s[0] == '+') ==> digits == s,
            all_digits(cs@.subrange(i as int, j as int)),
            acc as nat == digits_value(cs@.subrange(i as int, j as int)),
            acc <= u32::MAX,
        decreases hi - j,
    {
        let c = cs[j];
        if !('0' <= c && c <= '9') {
            assert(digits[j - i] == c);
            assert(!all_digits(digits));
            return None;
        }
        let ghost pre = cs@.subrange(i as int, j as int);
        let ghost next = cs@.subrange(i as int, j + 1);
        assert(next.drop_last() =~= pre);
        assert(next.last() == c);
        let d = (c as u32 - '0' as u32) as u64;
        let v = acc * 10 + d;
        assert(digits_value(next) == v);
        assert(all_digits(next)) by {
            assert forall|k: int| 0 <= k < next.len() implies is_digit(#[trigger] next[k]) by {
                if k < pre.len() {
                    assert(next[k] == pre[k]);
                }
            }
        }
        if v > u32::MAX as u64 {
            proof {
                assert(digits.subrange(0, (j + 1 - i) as int) =~= next);
                lemma_digits_monotone(digits, (j + 1 - i) as int);
            }
            return None;
        }
        acc = v;
        j = j + 1;
    }
    assert(cs@.subrange(i as int, j as int) =~= digits);
    Some(acc as u32)
}

/// The number of bytes a character takes in UTF-8.
pub open spec fn char_bytes(c: char) -> nat {
    if (c as u32) < 0x80 {
        1
    } else if (c as u32) < 0x800 {
        2
    } else if (c as u32) < 0x10000 {
        3
    } else {
        4
    }
}

/// The number of bytes a string takes in UTF-8.
pub open spec fn utf8_len(s: Seq<char>) -> nat
    decreases s.len(),
{
    if s.len() == 0 {
        0
    } else {
        utf8_len(s.drop_last()) + char_bytes(s.last())
    }
}

/// The longest prefix of `s` that takes at most `max` bytes in UTF-8: `s`
/// itself when it fits, and never a character cut in two.
pub open spec fn prefix_within(s: Seq<char>, max: nat) -> Seq<char>
    decreases s.len(),
{
    if s.len() == 0 || utf8_len(s) <= max {
        s
    } else {
        prefix_within(s.drop_last(), max)
    }
}

pub proof fn lemma_utf8_len_monotone(s: Seq<char>, i: int, j: int)
    requires
        0 <= i <= j <= s.len(),
    ensures
        utf8_len(s.subrange(0, i)) <= utf8_len(s.subrange(0, j)),
    decreases j - i,
{
    if i < j {
        let t = s.subrange(0, j);
        assert(t.drop_last() =~= s.subrange(0, j - 1));
        lemma_utf8_len_monotone(s, i, j - 1);
    }
}

proof fn lemma_prefix_within(s: Seq<char>, max: nat, k: int)
    requires
        0 <= k <= s.len(),
        utf8_len(s.subrange(0, k)) <= max,
        k < s.len() ==> utf8_len(s.subrange(0, k + 1)) > max,
    ensures
        prefix_within(s, max) == s.subrange(0, k),
    decreases s.len(),
{
    if s.len() == 0 || utf8_len(s) <= max {
        if k < s.len() {
            lemma_utf8_len_monotone(s, k + 1, s.len() as int);
            assert(s.subrange(0, s.len() as int) =~= s);
        }
        assert(s.subrange(0, k) =~= s);
    } else {
        if k == s.len() {
            assert(s.subrange(0, k) =~= s);
        }
        let d = s.drop_last();
        assert(d.subrange(0, k) =~= s.subrange(0, k));
        if k < d.len() {
            assert(d.subrange(0, k + 1) =~= s.subrange(0, k + 1));
        }
        lemma_prefix_within(d, max, k);
    }
}

fn char_len_utf8(c: char) -> (r: usize)
    ensures
        r == char_bytes(c),
{
    let v = c as u32;
    if v < 0x80 {
        1
    } else if v < 0x800 {
        2
    } else if v < 0x10000 {
        3
    } else {
        4
    }
}

/// The number of characters of the longest prefix of `cs` that fits in
/// `max` bytes of UTF-8.
pub fn prefix_len_within(cs: &Vec<char>, max: usize) -> (r: usize)
    ensures
        r <= cs@.len(),
        cs@.subrange(0, r as int) == prefix_within(cs@, max as nat),
{
    let mut bytes: usize = 0;
    let mut i: usize = 0;
    while i < cs.len()
        invariant
            i <= cs@.len(),
            bytes == utf8_len(cs@.subrange(0, i as int)),
            bytes <= max,
        ensures
            i <= cs@.len(),
            bytes == utf8_len(cs@.subrange(0, i as int)),
            bytes <= max,
            i < cs@.len() ==> utf8_len(cs@.subrange(0, i + 1)) > max,
        decreases cs@.len() - i,
    {
        let w = char_len_utf8(cs[i]);
        assert(cs@.subrange(0, i + 1).drop_last() =~= cs@.subrange(0, i as int));
        if w > max - bytes {
            break;
        }
        bytes = bytes + w;
        i = i + 1;
    }
    proof {
        lemma_prefix_within(cs@, max as nat, i as int);
    }
    i
}

/// The longest prefix of `s` that fits in `max` bytes of UTF-8.
pub fn utf8_prefix(s: &str, max: usize) -> (r: String)
    ensures
        r@ == prefix_within(s@, max as nat),
{
    let cs = chars_of(s);
    let n = prefix_len_within(&cs, max);
    let prefix = vstd::slice::slice_subrange(cs.as_slice(), 0, n);
    assert(prefix@ =~= cs@.subrange(0, n as int));
    string_of(prefix)
}

/// The decimal digits of `n`, without leading zeros.
pub open spec fn decimal(n: nat) -> Seq<char>
    decreases n,
{
    if n < 10 {
        seq![digit_char((n % 10) as u8)]
    } else {
        decimal(n / 10).push(digit_char((n % 10) as u8))
    }
}

pub open spec fn digit_char(d: u8) -> char {
    ((d + 48) as u8) as char
}

fn push_decimal(out: &mut Vec<char>, n: u64)
    ensures
        final(out)@ == old(out)@ + decimal(n as nat),
    decreases n,
{
    if n >= 10 {
        push_decimal(out, n / 10);
    }
    let d = (n % 10) as u8;
    let c = (d + 48) as char;
    out.push(c);
    assert(out@ =~= old(out)@ + decimal(n as nat));
}

/// `n` written in decimal.
pub fn decimal_string(n: u64) -> (r: String)
    ensures
        r@ == decimal(n as nat),
{
    let mut out: Vec<char> = Vec::new();
    push_decimal(&mut out, n);
    assert(out@ =~= decimal(n as nat));
    string_of(out.as_slice())
}

} // verus!
