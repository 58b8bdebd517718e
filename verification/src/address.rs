//! Reading the IBus D-Bus address out of an IBus bus file, whose lines look
//! like `IBUS_ADDRESS=unix:path=...`.

use vstd::prelude::*;
use vstd::string::*;
use crate::text::{char_vec, push_char};

verus! {

/// The key of the address line.
pub open spec fn address_key() -> Seq<char> {
    "IBUS_ADDRESS="@
}

/// `s` with every leading copy of the non-empty `p` removed.
pub open spec fn strip_prefix_repeatedly(s: Seq<char>, p: Seq<char>) -> Seq<char>
    decreases s.len(),
{
    if p.len() > 0 && p.len() <= s.len() && s.take(p.len() as int) == p {
        strip_prefix_repeatedly(s.skip(p.len() as int), p)
    } else {
        s
    }
}

/// `s` without its leading copies of `c`.
pub open spec fn trim_start_char(s: Seq<char>, c: char) -> Seq<char>
    decreases s.len(),
{
    if s.len() > 0 && s[0] == c {
        trim_start_char(s.drop_first(), c)
    } else {
        s
    }
}

/// `s` without its trailing copies of `c`.
pub open spec fn trim_end_char(s: Seq<char>, c: char) -> Seq<char>
    decreases s.len(),
{
    if s.len() > 0 && s.last() == c {
        trim_end_char(s.drop_last(), c)
    } else {
        s
    }
}

/// `s` without its leading and trailing copies of `c`.
pub open spec fn trim_char(s: Seq<char>, c: char) -> Seq<char> {
    trim_end_char(trim_start_char(s, c), c)
}

/// The address that an address line holds: the line without the key, and
/// without the single and then the double quotes around the value.
pub open spec fn address_value(line: Seq<char>) -> Seq<char> {
    trim_char(trim_char(strip_prefix_repeatedly(line, address_key()), '\''), '"')
}

/// The position of the first newline at or after `start`, or the length of
/// `content` where there is none.
pub open spec fn line_end(content: Seq<char>, start: int) -> int
    decreases content.len() - start,
{
    if start < 0 || start >= content.len() {
        content.len() as int
    } else if content[start] == '\n' {
        start
    } else {
        line_end(content, start + 1)
    }
}

/// `line_end` finds the first newline at or after `start`.
pub proof fn lemma_line_end(content: Seq<char>, start: int)
    requires
        0 <= start <= content.len(),
    ensures
        start <= line_end(content, start) <= content.len(),
        line_end(content, start) < content.len() ==> content[line_end(content, start)] == '\n',
        forall|t: int| start <= t < line_end(content, start) ==> content[t] != '\n',
    decreases content.len() - start,
{
    if start < content.len() && content[start] != '\n' {
        lemma_line_end(content, start + 1);
    }
}

/// The line of `content` that starts at `start`, without its line ending
/// (a newline, or a carriage return and a newline).
pub open spec fn line_at(content: Seq<char>, start: int) -> Seq<char> {
    let end = line_end(content, start);
    let raw = content.subrange(start, end);
    if end < content.len() && raw.len() > 0 && raw.last() == '\r' {
        raw.drop_last()
    } else {
        raw
    }
}

/// The address on the first line, at or after `start`, that begins with the
/// key, if any.
pub open spec fn address_from(content: Seq<char>, start: int) -> Option<Seq<char>>
    decreases content.len() + 1 - start,
{
    if start < 0 || start >= content.len() {
        None
    } else {
        let line = line_at(content, start);
        if line.len() >= address_key().len() && line.take(address_key().len() as int)
            == address_key() {
            Some(address_value(line))
        } else {
            proof {
                lemma_line_end(content, start);
            }
            address_from(content, line_end(content, start) + 1)
        }
    }
}

/// `line_end` stops at the first newline: where `[s, e)` holds none and `e`
/// is the end or a newline, the line that starts at `s` ends at `e`.
proof fn lemma_line_end_at(content: Seq<char>, s: int, e: int)
    requires
        0 <= s <= e <= content.len(),
        forall|t: int| s <= t < e ==> content[t] != '\n',
        e == content.len() || content[e] == '\n',
    ensures
        line_end(content, s) == e,
    decreases e - s,
{
    if s < e {
        lemma_line_end_at(content, s + 1, e);
    }
}

/// A bus file whose first line is `IBUS_ADDRESS=` followed by a value `v`
/// gives exactly `v`, whatever characters (such as `,` or `=`) it holds, when
/// `v` holds no newline, does not end with a carriage return, does not
/// itself begin with the key, and has no quote at either end.
pub proof fn lemma_address_line_value(v: Seq<char>, rest: Seq<char>)
    requires
        forall|i: int| 0 <= i < v.len() ==> v[i] != '\n',
        v.len() > 0 ==> v.last() != '\r' && v[0] != '\'' && v[0] != '"' && v.last() != '\''
            && v.last() != '"',
        !(v.len() >= 13 && v.take(13) == "IBUS_ADDRESS="@),
        rest.len() == 0 || rest[0] == '\n',
    ensures
        address_from("IBUS_ADDRESS="@ + v + rest, 0) == Some(v),
{
    reveal_strlit("IBUS_ADDRESS=");
    let key = "IBUS_ADDRESS="@;
    let c = key + v + rest;
    let e = (v.len() + 13) as int;
    assert forall|t: int| 0 <= t < e implies c[t] != '\n' by {
        if t >= 13 {
            assert(c[t] == v[t - 13]);
        }
    }
    assert(e < c.len() ==> c[e] == rest[0]);
    lemma_line_end_at(c, 0, e);
    let raw = c.subrange(0, e);
    assert(raw =~= key + v);
    assert(raw.last() != '\r') by {
        if v.len() > 0 {
            assert(raw.last() == v.last());
        } else {
            assert(raw.last() == key.last());
        }
    }
    let line = line_at(c, 0);
    assert(line == key + v);
    assert(line.take(13) =~= key);
    assert(line.skip(13) =~= v);
    assert(strip_prefix_repeatedly(v, key) == v);
    assert(strip_prefix_repeatedly(line, key) == v);
    assert(trim_char(v, '\'') == v);
    assert(trim_char(v, '"') == v);
}

/// Whether `s` occurs in `chars` at position `i`, inside `chars[..hi]`.
fn occurs_at(chars: &Vec<char>, i: usize, hi: usize, s: &str) -> (r: bool)
    requires
        i <= hi <= chars@.len(),
    ensures
        r == (i + s@.len() <= hi && chars@.subrange(i as int, i + s@.len()) == s@),
{
    let n = s.unicode_len();
    if hi - i < n {
        return false;
    }
    let mut m: usize = 0;
    while m < n
        invariant
            n == s@.len(),
            i + n <= hi,
            hi <= chars@.len(),
            m <= n,
            forall|t: int| 0 <= t < m ==> chars@[i + t] == s@[t],
        decreases n - m,
    {
        if chars[i + m] != s.get_char(m) {
            assert(chars@.subrange(i as int, i + n)[m as int] != s@[m as int]);
            return false;
        }
        m += 1;
    }
    assert(chars@.subrange(i as int, i + n) =~= s@);
    true
}

/// Where `chars[lo..hi]` starts once every leading copy of the key is gone.
fn skip_keys(chars: &Vec<char>, lo: usize, hi: usize) -> (r: usize)
    requires
        lo <= hi <= chars@.len(),
    ensures
        lo <= r <= hi,
        chars@.subrange(r as int, hi as int) == strip_prefix_repeatedly(
            chars@.subrange(lo as int, hi as int),
            address_key(),
        ),
{
    proof {
        reveal_strlit("IBUS_ADDRESS=");
    }
    let mut at = lo;
    while occurs_at(chars, at, hi, "IBUS_ADDRESS=")
        invariant
            lo <= at <= hi <= chars@.len(),
            address_key().len() == 13,
            strip_prefix_repeatedly(chars@.subrange(lo as int, hi as int), address_key())
                == strip_prefix_repeatedly(chars@.subrange(at as int, hi as int), address_key()),
        decreases hi - at,
    {
        let ghost part = chars@.subrange(at as int, hi as int);
        assert(part.take(13) =~= chars@.subrange(at as int, at + 13));
        assert(part.skip(13) =~= chars@.subrange(at + 13, hi as int));
        at = at + 13;
    }
    let ghost part = chars@.subrange(at as int, hi as int);
    assert(part.len() >= 13 ==> part.take(13) =~= chars@.subrange(at as int, at + 13));
    at
}

/// The bounds of `chars[lo..hi]` without its leading and trailing copies
/// of `c`.
fn trim_bounds(chars: &Vec<char>, lo: usize, hi: usize, c: char) -> (r: (usize, usize))
    requires
        lo <= hi <= chars@.len(),
    ensures
        lo <= r.0 <= r.1 <= hi,
        chars@.subrange(r.0 as int, r.1 as int) == trim_char(
            chars@.subrange(lo as int, hi as int),
            c,
        ),
{
    let mut a = lo;
    while a < hi && chars[a] == c
        invariant
            lo <= a <= hi <= chars@.len(),
            trim_start_char(chars@.subrange(lo as int, hi as int), c) == trim_start_char(
                chars@.subrange(a as int, hi as int),
                c,
            ),
        decreases hi - a,
    {
        assert(chars@.subrange(a as int, hi as int).drop_first() =~= chars@.subrange(
            a + 1,
            hi as int,
        ));
        a += 1;
    }
    assert(trim_start_char(chars@.subrange(a as int, hi as int), c) == chars@.subrange(
        a as int,
        hi as int,
    ));
    let mut b = hi;
    while b > a && chars[b - 1] == c
        invariant
            lo <= a <= b <= hi <= chars@.len(),
            trim_end_char(chars@.subrange(a as int, hi as int), c) == trim_end_char(
                chars@.subrange(a as int, b as int),
                c,
            ),
        decreases b - a,
    {
        assert(chars@.subrange(a as int, b as int).drop_last() =~= chars@.subrange(
            a as int,
            b - 1,
        ));
        b -= 1;
    }
    (a, b)
}

/// The first position at or after `start` that holds a newline, or the
/// length of `chars`.
fn find_line_end(chars: &Vec<char>, start: usize) -> (r: usize)
    requires
        start <= chars@.len(),
    ensures
        r == line_end(chars@, start as int),
{
    let mut e = start;
    while e < chars.len() && chars[e] != '\n'
        invariant
            start <= e <= chars@.len(),
            line_end(chars@, start as int) == line_end(chars@, e as int),
        decreases chars@.len() - e,
    {
        e += 1;
    }
    e
}

/// The IBus address in the contents of an IBus bus file: the value of the
/// first line that begins with `IBUS_ADDRESS=`, without the key and without
/// surrounding single and double quotes.
pub fn ibus_address_from_config(content: &str) -> (r: Option<String>)
    ensures
        match r {
            Some(address) => address_from(content@, 0) == Some(address@),
            None => address_from(content@, 0) is None,
        },
{
    proof {
        reveal_strlit("IBUS_ADDRESS=");
    }
    let chars = char_vec(content);
    let len = chars.len();
    let mut start: usize = 0;
    while start < len
        invariant
            len == chars@.len(),
            chars@ == content@,
            start <= len,
            address_key().len() == 13,
            address_from(content@, 0) == address_from(content@, start as int),
        decreases len - start,
    {
        let end = find_line_end(&chars, start);
        proof {
            lemma_line_end(chars@, start as int);
        }
        let stop = if end < len && end > start && chars[end - 1] == '\r' {
            end - 1
        } else {
            end
        };
        let ghost line = line_at(chars@, start as int);
        assert(line =~= chars@.subrange(start as int, stop as int));
        if occurs_at(&chars, start, stop, "IBUS_ADDRESS=") {
            assert(line.take(13) =~= chars@.subrange(start as int, start + 13));
            let from = skip_keys(&chars, start, stop);
            let (a, b) = trim_bounds(&chars, from, stop, '\'');
            let (c, d) = trim_bounds(&chars, a, b, '"');
            let mut address = String::new();
            let mut k = c;
            while k < d
                invariant
                    c <= k <= d <= chars@.len(),
                    address@ == chars@.subrange(c as int, k as int),
                decreases d - k,
            {
                push_char(&mut address, chars[k]);
                k += 1;
                assert(address@ =~= chars@.subrange(c as int, k as int));
            }
            return Some(address);
        }
        assert(!(line.len() >= 13 && line.take(13) == address_key())) by {
            if line.len() >= 13 {
                assert(line.take(13) =~= chars@.subrange(start as int, start + 13));
            }
        }
        assert(address_from(content@, start as int) == address_from(content@, end + 1));
        assert(end >= len ==> address_from(content@, end + 1) == address_from(content@, len as int));
        start = if end < len {
            end + 1
        } else {
            len
        };
    }
    None
}

} // verus!
