//! Verified character and string helpers the core is built on: whitespace
//! tests, string equality, decimal rendering of counters, splitting off the
//! text after the last occurrence of a character, and joining lines.

use vstd::prelude::*;
use vstd::string::StrSliceExecFns;
use vstd::string::StringExecFns;

verus! {

/// Whitespace as the staging rules count it.
pub open spec fn is_ws_char(c: char) -> bool {
    c == ' ' || c == '\t' || c == '\n' || c == '\r'
}

/// A text all of whose characters are whitespace (so also the empty text).
pub open spec fn is_blank(s: Seq<char>) -> bool {
    forall|i: int| 0 <= i < s.len() ==> is_ws_char(s[i])
}

/// Whitespace test on one character.
pub fn char_is_ws(c: char) -> (r: bool)
    ensures
        r == is_ws_char(c),
{
    c == ' ' || c == '\t' || c == '\n' || c == '\r'
}

/// Whether the text consists of whitespace only.
pub fn str_is_blank(s: &str) -> (r: bool)
    ensures
        r == is_blank(s@),
{
    let n = s.unicode_len();
    let mut i: usize = 0;
    while i < n
        invariant
            n == s@.len(),
            i <= n,
            forall|j: int| 0 <= j < i ==> is_ws_char(s@[j]),
        decreases n - i,
    {
        if !char_is_ws(s.get_char(i)) {
            return false;
        }
        i += 1;
    }
    true
}

/// Character-for-character string equality.
pub fn str_eq(a: &str, b: &str) -> (r: bool)
    ensures
        r == (a@ == b@),
{
    let na = a.unicode_len();
    let nb = b.unicode_len();
    if na != nb {
        return false;
    }
    let mut i: usize = 0;
    while i < na
        invariant
            na == a@.len(),
            na == b@.len(),
            i <= na,
            forall|j: int| 0 <= j < i ==> a@[j] == b@[j],
        decreases na - i,
    {
        if a.get_char(i) != b.get_char(i) {
            return false;
        }
        i += 1;
    }
    proof {
        assert(a@ =~= b@);
    }
    true
}

/// Relies on `String::push`: appends exactly the one character at the end.
#[verifier::external_body]
pub fn push_char(s: &mut String, c: char)
    ensures
        final(s)@ == old(s)@.push(c),
{
    s.push(c);
}

/// The character for one decimal digit.
pub open spec fn dec_digit(d: int) -> char {
    if d == 0 {
        '0'
    } else if d == 1 {
        '1'
    } else if d == 2 {
        '2'
    } else if d == 3 {
        '3'
    } else if d == 4 {
        '4'
    } else if d == 5 {
        '5'
    } else if d == 6 {
        '6'
    } else if d == 7 {
        '7'
    } else if d == 8 {
        '8'
    } else {
        '9'
    }
}

/// The decimal rendering of a number, most significant digit first.
pub open spec fn dec_of(n: nat) -> Seq<char>
    decreases n,
{
    if n < 10 {
        seq![dec_digit(n as int)]
    } else {
        dec_of(n / 10).push(dec_digit((n % 10) as int))
    }
}

/// A character that the decimal rendering can produce.
pub open spec fn is_dec_digit_char(c: char) -> bool {
    c == '0' || c == '1' || c == '2' || c == '3' || c == '4' || c == '5' || c == '6' || c == '7'
        || c == '8' || c == '9'
}

fn dec_digit_char(d: u64) -> (c: char)
    requires
        d < 10,
    ensures
        c == dec_digit(d as int),
{
    match d {
        0 => '0',
        1 => '1',
        2 => '2',
        3 => '3',
        4 => '4',
        5 => '5',
        6 => '6',
        7 => '7',
        8 => '8',
        _ => '9',
    }
}

/// Render a counter in decimal.
pub fn u64_to_dec(n: u64) -> (r: String)
    ensures
        r@ == dec_of(n as nat),
    decreases n,
{
    if n < 10 {
        let mut s = String::new();
        push_char(&mut s, dec_digit_char(n));
        proof {
            assert(s@ =~= dec_of(n as nat));
        }
        s
    } else {
        let mut s = u64_to_dec(n / 10);
        push_char(&mut s, dec_digit_char(n % 10));
        s
    }
}

/// A decimal rendering is never empty, and has two or more digits from ten up.
pub proof fn lemma_dec_len(n: nat)
    ensures
        dec_of(n).len() >= 1,
        n >= 10 ==> dec_of(n).len() >= 2,
    decreases n,
{
    if n >= 10 {
        lemma_dec_len(n / 10);
    }
}

/// Every character of a decimal rendering is a digit.
pub proof fn lemma_dec_digits(n: nat)
    ensures
        forall|i: int| 0 <= i < dec_of(n).len() ==> is_dec_digit_char(dec_of(n)[i]),
    decreases n,
{
    if n < 10 {
        assert(dec_of(n) == seq![dec_digit(n as int)]);
        assert(dec_of(n)[0] == dec_digit(n as int));
        assert(is_dec_digit_char(dec_digit(n as int)));
    } else {
        lemma_dec_digits(n / 10);
        let s = dec_of(n / 10);
        let d = dec_digit((n % 10) as int);
        assert(dec_of(n) == s.push(d));
        assert(is_dec_digit_char(d));
        assert forall|i: int| 0 <= i < dec_of(n).len() implies is_dec_digit_char(
            dec_of(n)[i],
        ) by {
            if i < s.len() {
                assert(s.push(d)[i] == s[i]);
            } else {
                assert(s.push(d)[i] == d);
            }
        }
    }
}

/// Two distinct numbers render to distinct decimal texts.
pub proof fn lemma_dec_injective(a: nat, b: nat)
    requires
        dec_of(a) == dec_of(b),
    ensures
        a == b,
    decreases a,
{
    lemma_dec_len(a);
    lemma_dec_len(b);
    if a < 10 && b < 10 {
        assert(dec_of(a) == seq![dec_digit(a as int)]);
        assert(dec_of(b) == seq![dec_digit(b as int)]);
        assert(dec_of(a)[0] == dec_digit(a as int));
        assert(dec_of(b)[0] == dec_digit(b as int));
        assert(dec_digit(a as int) == dec_digit(b as int));
        assert(a == b);
    } else if a < 10 {
        assert(dec_of(a).len() == 1);
        assert(false);
    } else if b < 10 {
        assert(dec_of(b).len() == 1);
        assert(false);
    } else {
        let da = dec_digit((a % 10) as int);
        let db = dec_digit((b % 10) as int);
        assert(dec_of(a) == dec_of(a / 10).push(da));
        assert(dec_of(b) == dec_of(b / 10).push(db));
        assert(dec_of(a).last() == da);
        assert(dec_of(b).last() == db);
        assert(dec_digit((a % 10) as int) == dec_digit((b % 10) as int));
        assert(a % 10 == b % 10);
        assert(dec_of(a).drop_last() =~= dec_of(a / 10));
        assert(dec_of(b).drop_last() =~= dec_of(b / 10));
        lemma_dec_injective(a / 10, b / 10);
        assert(a == 10 * (a / 10) + a % 10);
        assert(b == 10 * (b / 10) + b % 10);
    }
}

/// Appending to a common prefix keeps texts apart: equal results force
/// equal suffixes.
pub proof fn lemma_concat_cancel_left(p: Seq<char>, a: Seq<char>, b: Seq<char>)
    requires
        p + a == p + b,
    ensures
        a == b,
{
    assert((p + a).len() == p.len() + a.len());
    assert((p + b).len() == p.len() + b.len());
    assert(a.len() == b.len());
    assert forall|i: int| 0 <= i < a.len() implies a[i] == b[i] by {
        let k = p.len() as int + i;
        assert((p + a)[k] == a[i]);
        assert((p + b)[k] == b[i]);
        assert((p + a)[k] == (p + b)[k]);
    }
    assert(a =~= b);
}

/// The text after the last occurrence of `c` in `s`; the whole of `s` when
/// `c` does not occur.
pub open spec fn tail_after_last(s: Seq<char>, c: char) -> Seq<char>
    decreases s.len(),
{
    if s.len() == 0 {
        s
    } else if s.last() == c {
        Seq::empty()
    } else {
        tail_after_last(s.drop_last(), c).push(s.last())
    }
}

/// The suffix of `s` after the last occurrence of `c`.
pub fn split_after_last(s: &str, c: char) -> (r: String)
    ensures
        r@ == tail_after_last(s@, c),
{
    let n = s.unicode_len();
    let mut j: usize = n;
    proof {
        assert(s@.subrange(0, n as int) =~= s@);
        assert(s@.subrange(n as int, n as int) =~= Seq::<char>::empty());
        assert(tail_after_last(s@, c) + Seq::<char>::empty() =~= tail_after_last(s@, c));
    }
    while j > 0 && s.get_char(j - 1) != c
        invariant
            n == s@.len(),
            j <= n,
            tail_after_last(s@, c) == tail_after_last(s@.subrange(0, j as int), c) + s@.subrange(
                j as int,
                n as int,
            ),
        decreases j,
    {
        proof {
            let t = s@.subrange(0, j as int);
            assert(t.last() == s@[j - 1]);
            assert(t.drop_last() =~= s@.subrange(0, j as int - 1));
            assert(tail_after_last(t, c) == tail_after_last(t.drop_last(), c).push(t.last()));
            assert(tail_after_last(t.drop_last(), c).push(t.last()) + s@.subrange(j as int, n as int)
                =~= tail_after_last(t.drop_last(), c) + s@.subrange(j as int - 1, n as int));
        }
        j -= 1;
    }
    proof {
        let t = s@.subrange(0, j as int);
        if j == 0 {
            assert(t.len() == 0);
            assert(tail_after_last(t, c) == t);
            assert(t + s@.subrange(0, n as int) =~= s@.subrange(0, n as int));
        } else {
            assert(t.last() == s@[j - 1]);
            assert(t.last() == c);
            assert(tail_after_last(t, c) == Seq::<char>::empty());
            assert(Seq::<char>::empty() + s@.subrange(j as int, n as int) =~= s@.subrange(
                j as int,
                n as int,
            ));
        }
    }
    let tail = s.substring_char(j, n);
    let r = String::from_str(tail);
    proof {
        assert(r@ =~= tail_after_last(s@, c));
    }
    r
}

/// Lines joined with a single newline between neighbours.
pub open spec fn join_nl(v: Seq<Seq<char>>) -> Seq<char>
    decreases v.len(),
{
    if v.len() == 0 {
        Seq::empty()
    } else if v.len() == 1 {
        v[0]
    } else {
        join_nl(v.drop_last()) + seq!['\n'] + v.last()
    }
}

/// Join captured buffer lines into one text, newline-separated.
pub fn join_lines(lines: &Vec<String>) -> (r: String)
    ensures
        r@ == join_nl(lines@.map_values(|s: String| s@)),
{
    let ghost all = lines@.map_values(|s: String| s@);
    let mut out = String::new();
    let mut i: usize = 0;
    while i < lines.len()
        invariant
            i <= lines@.len(),
            all == lines@.map_values(|s: String| s@),
            out@ == join_nl(all.subrange(0, i as int)),
        decreases lines@.len() - i,
    {
        if i > 0 {
            push_char(&mut out, '\n');
        }
        out.append(lines[i].as_str());
        proof {
            let pre = all.subrange(0, i as int);
            let cur = all.subrange(0, i as int + 1);
            assert(cur.drop_last() =~= pre);
            assert(cur.last() == all[i as int]);
            if i == 0 {
                assert(cur.len() == 1);
                assert(out@ =~= join_nl(cur));
            } else {
                assert(join_nl(cur) == join_nl(pre) + seq!['\n'] + all[i as int]);
                assert(out@ =~= join_nl(cur));
            }
        }
        i += 1;
    }
    proof {
        assert(all.subrange(0, lines@.len() as int) =~= all);
    }
    out
}

} // verus!
