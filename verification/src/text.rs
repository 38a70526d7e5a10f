//! Character-level text helpers: trimming, line splitting and tokenising, as
//! the tools' listing output needs them. Each executable helper is verified
//! against a spec-level definition over `Seq<char>`.

use vstd::prelude::*;

verus! {

/// ASCII whitespace, the only whitespace the parsed tool output contains.
pub open spec fn is_ws(c: char) -> bool {
    c == ' ' || c == '\t' || c == '\r' || c == '\n'
}

/// The sequence with leading whitespace removed.
pub open spec fn trim_left(s: Seq<char>) -> Seq<char>
    decreases s.len(),
{
    if s.len() > 0 && is_ws(s[0]) {
        trim_left(s.drop_first())
    } else {
        s
    }
}

/// The sequence with trailing whitespace removed.
pub open spec fn trim_right(s: Seq<char>) -> Seq<char>
    decreases s.len(),
{
    if s.len() > 0 && is_ws(s.last()) {
        trim_right(s.drop_last())
    } else {
        s
    }
}

/// The sequence with whitespace removed at both ends.
pub open spec fn trim(s: Seq<char>) -> Seq<char> {
    trim_right(trim_left(s))
}

/// A carriage return left at the end of a line by a CRLF line ending is
/// dropped; anything else is kept as it is.
pub open spec fn strip_cr(l: Seq<char>) -> Seq<char> {
    if l.len() > 0 && l.last() == '\r' {
        l.drop_last()
    } else {
        l
    }
}

pub open spec fn lines_go(s: Seq<char>, cur: Seq<char>, acc: Seq<Seq<char>>) -> Seq<Seq<char>>
    decreases s.len(),
{
    if s.len() == 0 {
        if cur.len() == 0 {
            acc
        } else {
            acc.push(cur)
        }
    } else if s[0] == '\n' {
        lines_go(s.drop_first(), Seq::empty(), acc.push(strip_cr(cur)))
    } else {
        lines_go(s.drop_first(), cur.push(s[0]), acc)
    }
}

/// The lines of a text: split at each line feed, a carriage return before a
/// line feed dropped, and no empty final line when the text ends in a line
/// ending.
pub open spec fn lines_of(s: Seq<char>) -> Seq<Seq<char>> {
    lines_go(s, Seq::empty(), Seq::empty())
}

pub open spec fn take_until_ws(s: Seq<char>) -> Seq<char>
    decreases s.len(),
{
    if s.len() == 0 || is_ws(s[0]) {
        Seq::empty()
    } else {
        seq![s[0]] + take_until_ws(s.drop_first())
    }
}

/// The first whitespace-delimited token of a line; empty when the line holds
/// only whitespace.
pub open spec fn first_token(l: Seq<char>) -> Seq<char> {
    take_until_ws(trim_left(l))
}

/// Whether `c` is ASCII whitespace.
pub fn is_ws_char(c: char) -> (r: bool)
    ensures
        r == is_ws(c),
{
    c == ' ' || c == '\t' || c == '\r' || c == '\n'
}

/// The characters of a string slice, as a vector.
pub fn chars_of(s: &str) -> (r: Vec<char>)
    ensures
        r@ == s@,
{
    let n: usize = s.unicode_len();
    let mut r: Vec<char> = Vec::new();
    let mut i: usize = 0;
    while i < n
        invariant
            n == s@.len(),
            i <= n,
            r@ == s@.take(i as int),
        decreases n - i,
    {
        r.push(s.get_char(i));
        i = i + 1;
        proof {
            assert(r@ =~= s@.take(i as int));
        }
    }
    proof {
        assert(s@.take(n as int) =~= s@);
    }
    r
}

/// Relies on `String::push`: appends the given character to the string.
#[verifier::external_body]
fn push_char(s: &mut String, c: char)
    ensures
        final(s)@ == old(s)@.push(c),
{
    s.push(c);
}

/// A freshly allocated string holding exactly the given characters.
pub fn string_of(cs: &Vec<char>) -> (r: String)
    ensures
        r@ == cs@,
{
    let mut r = String::new();
    let mut i: usize = 0;
    while i < cs.len()
        invariant
            i <= cs@.len(),
            r@ == cs@.take(i as int),
        decreases cs@.len() - i,
    {
        push_char(&mut r, cs[i]);
        i = i + 1;
        proof {
            assert(r@ =~= cs@.take(i as int));
        }
    }
    proof {
        assert(cs@.take(cs@.len() as int) =~= cs@);
    }
    r
}

/// Whether two character vectors hold the same characters.
pub fn chars_eq(a: &Vec<char>, b: &Vec<char>) -> (r: bool)
    ensures
        r == (a@ == b@),
{
    if a.len() != b.len() {
        proof {
            assert(a@.len() != b@.len());
        }
        return false;
    }
    let mut i: usize = 0;
    while i < a.len()
        invariant
            a@.len() == b@.len(),
            i <= a@.len(),
            forall|j: int| 0 <= j < i ==> a@[j] == b@[j],
        decreases a@.len() - i,
    {
        if a[i] != b[i] {
            return false;
        }
        i = i + 1;
    }
    proof {
        assert(a@ =~= b@);
    }
    true
}

/// Appends the characters of `more` to `v`.
pub fn extend_chars(v: &mut Vec<char>, more: &Vec<char>)
    ensures
        final(v)@ == old(v)@ + more@,
{
    let mut i: usize = 0;
    while i < more.len()
        invariant
            i <= more@.len(),
            v@ == old(v)@ + more@.take(i as int),
        decreases more@.len() - i,
    {
        v.push(more[i]);
        i = i + 1;
        proof {
            assert(old(v)@ + more@.take(i as int) =~= (old(v)@ + more@.take(i - 1)).push(
                more@[i - 1],
            ));
        }
    }
    proof {
        assert(old(v)@ + more@.take(more@.len() as int) =~= old(v)@ + more@);
    }
}

/// Whether `p` is a prefix of `v`.
pub fn has_prefix(v: &Vec<char>, p: &Vec<char>) -> (r: bool)
    ensures
        r == p@.is_prefix_of(v@),
{
    if p.len() > v.len() {
        return false;
    }
    let mut i: usize = 0;
    while i < p.len()
        invariant
            p@.len() <= v@.len(),
            i <= p@.len(),
            forall|j: int| 0 <= j < i ==> v@[j] == p@[j],
        decreases p@.len() - i,
    {
        if v[i] != p[i] {
            proof {
                assert(!(p@ =~= v@.take(p@.len() as int)));
            }
            return false;
        }
        i = i + 1;
    }
    proof {
        assert(p@ =~= v@.take(p@.len() as int));
    }
    true
}

/// The characters of `v` from position `from` on.
pub fn chars_from(v: &Vec<char>, from: usize) -> (r: Vec<char>)
    requires
        from <= v@.len(),
    ensures
        r@ == v@.skip(from as int),
{
    let mut r: Vec<char> = Vec::new();
    let mut i: usize = from;
    while i < v.len()
        invariant
            from <= i <= v@.len(),
            r@ == v@.subrange(from as int, i as int),
        decreases v@.len() - i,
    {
        r.push(v[i]);
        i = i + 1;
        proof {
            assert(r@ =~= v@.subrange(from as int, i as int));
        }
    }
    proof {
        assert(v@.subrange(from as int, v@.len() as int) =~= v@.skip(from as int));
    }
    r
}

/// The characters of `v` with whitespace removed at both ends.
pub fn trim_chars(v: &Vec<char>) -> (r: Vec<char>)
    ensures
        r@ == trim(v@),
{
    let mut start: usize = 0;
    proof {
        assert(v@.skip(0) =~= v@);
    }
    while start < v.len() && is_ws_char(v[start])
        invariant
            start <= v@.len(),
            trim_left(v@.skip(start as int)) == trim_left(v@),
        decreases v@.len() - start,
    {
        proof {
            assert(v@.skip(start as int).drop_first() =~= v@.skip(start as int + 1));
        }
        start = start + 1;
    }
    proof {
        let s0: Seq<char> = v@.skip(start as int);
        if start < v@.len() {
            assert(s0[0] == v@[start as int]);
        }
        assert(trim_left(s0) == s0);
        assert(trim_left(v@) == s0);
        assert(v@.subrange(start as int, v@.len() as int) =~= s0);
    }
    let mut end: usize = v.len();
    while end > start && is_ws_char(v[end - 1])
        invariant
            start <= end <= v@.len(),
            trim_right(v@.subrange(start as int, end as int)) == trim_right(
                v@.skip(start as int),
            ),
        decreases end,
    {
        proof {
            assert(v@.subrange(start as int, end as int).drop_last() =~= v@.subrange(
                start as int,
                end as int - 1,
            ));
        }
        end = end - 1;
    }
    proof {
        let s1: Seq<char> = v@.subrange(start as int, end as int);
        if end > start {
            assert(s1.last() == v@[end as int - 1]);
        }
        assert(trim_right(s1) == s1);
        assert(trim(v@) == s1);
    }
    let mut r: Vec<char> = Vec::new();
    let mut i: usize = start;
    while i < end
        invariant
            start <= i <= end <= v@.len(),
            r@ == v@.subrange(start as int, i as int),
        decreases end - i,
    {
        r.push(v[i]);
        i = i + 1;
        proof {
            assert(r@ =~= v@.subrange(start as int, i as int));
        }
    }
    r
}

/// The lines of a string, split as `lines_of` describes.
pub fn split_lines(s: &str) -> (r: Vec<Vec<char>>)
    ensures
        r.deep_view() == lines_of(s@),
{
    let n: usize = s.unicode_len();
    let mut acc: Vec<Vec<char>> = Vec::new();
    let mut cur: Vec<char> = Vec::new();
    let mut i: usize = 0;
    proof {
        assert(s@.skip(0) =~= s@);
        assert(acc.deep_view() =~~= Seq::<Seq<char>>::empty());
    }
    while i < n
        invariant
            n == s@.len(),
            i <= n,
            lines_go(s@.skip(i as int), cur@, acc.deep_view()) == lines_of(s@),
        decreases n - i,
    {
        let c = s.get_char(i);
        proof {
            assert(s@.skip(i as int)[0] == c);
            assert(s@.skip(i as int).drop_first() =~= s@.skip(i as int + 1));
        }
        if c == '\n' {
            let ghost cur0 = cur@;
            let mut line = cur;
            if line.len() > 0 && line[line.len() - 1] == '\r' {
                let _ = line.pop();
                proof {
                    assert(line@ =~= cur0.drop_last());
                }
            }
            proof {
                assert(line@ == strip_cr(cur0));
            }
            let ghost acc0 = acc.deep_view();
            acc.push(line);
            cur = Vec::new();
            proof {
                assert(acc.deep_view() =~~= acc0.push(strip_cr(cur0)));
            }
        } else {
            cur.push(c);
        }
        i = i + 1;
    }
    proof {
        assert(s@.skip(n as int) =~= Seq::<char>::empty());
    }
    if cur.len() > 0 {
        let ghost acc0 = acc.deep_view();
        let ghost curv = cur@;
        acc.push(cur);
        proof {
            assert(acc.deep_view() =~~= acc0.push(curv));
        }
    }
    acc
}

} // verus!
