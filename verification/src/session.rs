//! Result delivery formatting. Successful output is sent to the host as a
//! single quoted display line: existing literal quote-escape sequences are
//! first unescaped, then every literal quote character is escaped, and
//! trailing whitespace is trimmed. Failures go to the host's error channel
//! as the error's rendered message, untouched by this quoting round trip.

use vstd::prelude::*;
use vstd::string::StrSliceExecFns;
use vstd::string::StringExecFns;

use crate::strings::char_is_ws;
use crate::strings::is_ws_char;
use crate::strings::push_char;

verus! {

/// The text with every backslash-quote pair collapsed to a bare quote,
/// scanning left to right without overlap.
pub open spec fn unescape_quotes_spec(s: Seq<char>) -> Seq<char>
    decreases s.len(),
{
    if s.len() >= 2 && s[0] == '\\' && s[1] == '"' {
        seq!['"'] + unescape_quotes_spec(s.skip(2))
    } else if s.len() >= 1 {
        seq![s[0]] + unescape_quotes_spec(s.skip(1))
    } else {
        Seq::empty()
    }
}

/// The text with every bare quote expanded to a backslash-quote pair.
pub open spec fn escape_quotes_spec(s: Seq<char>) -> Seq<char>
    decreases s.len(),
{
    if s.len() == 0 {
        Seq::empty()
    } else if s[0] == '"' {
        seq!['\\', '"'] + escape_quotes_spec(s.skip(1))
    } else {
        seq![s[0]] + escape_quotes_spec(s.skip(1))
    }
}

/// The text without its trailing whitespace.
pub open spec fn trim_end_spec(s: Seq<char>) -> Seq<char>
    decreases s.len(),
{
    if s.len() >= 1 && is_ws_char(s.last()) {
        trim_end_spec(s.drop_last())
    } else {
        s
    }
}

/// Collapse every backslash-quote pair to a bare quote.
pub fn unescape_quotes(s: &str) -> (r: String)
    ensures
        r@ == unescape_quotes_spec(s@),
{
    let n = s.unicode_len();
    let mut out = String::new();
    let mut i: usize = 0;
    proof {
        assert(s@.skip(0) =~= s@);
        assert(out@ + unescape_quotes_spec(s@) =~= unescape_quotes_spec(s@));
    }
    while i < n
        invariant
            n == s@.len(),
            i <= n,
            unescape_quotes_spec(s@) == out@ + unescape_quotes_spec(s@.skip(i as int)),
        decreases n - i,
    {
        let ghost rem = s@.skip(i as int);
        let ghost before = out@;
        let c = s.get_char(i);
        proof {
            assert(rem[0] == s@[i as int]);
            if i + 1 < n {
                assert(rem[1] == s@[i as int + 1]);
            }
        }
        if c == '\\' && i + 1 < n && s.get_char(i + 1) == '"' {
            push_char(&mut out, '"');
            proof {
                assert(rem.len() >= 2 && rem[0] == '\\' && rem[1] == '"');
                assert(unescape_quotes_spec(rem) == seq!['"'] + unescape_quotes_spec(rem.skip(2)));
                assert(rem.skip(2) =~= s@.skip(i as int + 2));
                assert(out@ =~= before + seq!['"']);
                assert(before + (seq!['"'] + unescape_quotes_spec(rem.skip(2))) =~= (before + seq![
                    '"']) + unescape_quotes_spec(rem.skip(2)));
            }
            i += 2;
        } else {
            push_char(&mut out, c);
            proof {
                assert(!(rem.len() >= 2 && rem[0] == '\\' && rem[1] == '"'));
                assert(rem.len() >= 1);
                assert(unescape_quotes_spec(rem) == seq![rem[0]] + unescape_quotes_spec(
                    rem.skip(1),
                ));
                assert(rem.skip(1) =~= s@.skip(i as int + 1));
                assert(out@ =~= before + seq![rem[0]]);
                assert(before + (seq![rem[0]] + unescape_quotes_spec(rem.skip(1))) =~= (before
                    + seq![rem[0]]) + unescape_quotes_spec(rem.skip(1)));
            }
            i += 1;
        }
    }
    proof {
        assert(s@.skip(n as int) =~= Seq::<char>::empty());
        assert(out@ + Seq::<char>::empty() =~= out@);
    }
    out
}

/// Expand every bare quote to a backslash-quote pair.
pub fn escape_quotes(s: &str) -> (r: String)
    ensures
        r@ == escape_quotes_spec(s@),
{
    let n = s.unicode_len();
    let mut out = String::new();
    let mut i: usize = 0;
    proof {
        assert(s@.skip(0) =~= s@);
        assert(out@ + escape_quotes_spec(s@) =~= escape_quotes_spec(s@));
    }
    while i < n
        invariant
            n == s@.len(),
            i <= n,
            escape_quotes_spec(s@) == out@ + escape_quotes_spec(s@.skip(i as int)),
        decreases n - i,
    {
        let ghost rem = s@.skip(i as int);
        let ghost before = out@;
        let c = s.get_char(i);
        proof {
            assert(rem[0] == s@[i as int]);
            assert(rem.skip(1) =~= s@.skip(i as int + 1));
        }
        if c == '"' {
            push_char(&mut out, '\\');
            push_char(&mut out, '"');
            proof {
                assert(escape_quotes_spec(rem) == seq!['\\', '"'] + escape_quotes_spec(
                    rem.skip(1),
                ));
                assert(out@ =~= before + seq!['\\', '"']);
                assert(before + (seq!['\\', '"'] + escape_quotes_spec(rem.skip(1))) =~= (before
                    + seq!['\\', '"']) + escape_quotes_spec(rem.skip(1)));
            }
        } else {
            push_char(&mut out, c);
            proof {
                assert(escape_quotes_spec(rem) == seq![rem[0]] + escape_quotes_spec(rem.skip(1)));
                assert(out@ =~= before + seq![rem[0]]);
                assert(before + (seq![rem[0]] + escape_quotes_spec(rem.skip(1))) =~= (before + seq![
                    rem[0]]) + escape_quotes_spec(rem.skip(1)));
            }
        }
        i += 1;
    }
    proof {
        assert(s@.skip(n as int) =~= Seq::<char>::empty());
        assert(out@ + Seq::<char>::empty() =~= out@);
    }
    out
}

/// Drop trailing whitespace.
pub fn trim_trailing_ws(s: &str) -> (r: String)
    ensures
        r@ == trim_end_spec(s@),
{
    let n = s.unicode_len();
    let mut j: usize = n;
    proof {
        assert(s@.subrange(0, n as int) =~= s@);
    }
    while j > 0 && char_is_ws(s.get_char(j - 1))
        invariant
            n == s@.len(),
            j <= n,
            trim_end_spec(s@) == trim_end_spec(s@.subrange(0, j as int)),
        decreases j,
    {
        proof {
            let t = s@.subrange(0, j as int);
            assert(t.last() == s@[j - 1]);
            assert(t.drop_last() =~= s@.subrange(0, j as int - 1));
        }
        j -= 1;
    }
    proof {
        let t = s@.subrange(0, j as int);
        if j > 0 {
            assert(t.last() == s@[j - 1]);
        }
        assert(trim_end_spec(t) == t);
    }
    let kept = s.substring_char(0, j);
    let r = String::from_str(kept);
    proof {
        assert(r@ =~= trim_end_spec(s@));
    }
    r
}

/// Format a successful run's output for delivery as one display line:
/// unescape already-escaped quotes, escape every literal quote, and trim
/// trailing whitespace.
pub fn format_output(answer: &str) -> (r: String)
    ensures
        r@ == trim_end_spec(escape_quotes_spec(unescape_quotes_spec(answer@))),
{
    let unescaped = unescape_quotes(answer);
    let escaped = escape_quotes(unescaped.as_str());
    trim_trailing_ws(escaped.as_str())
}

/// Escaping never leaves a quote first: the escaped text is exactly as
/// empty as its source, and opens with a backslash or an unquoted
/// character.
proof fn lemma_escape_head(t: Seq<char>)
    ensures
        t.len() == 0 ==> escape_quotes_spec(t).len() == 0,
        t.len() > 0 ==> escape_quotes_spec(t).len() > 0 && escape_quotes_spec(t)[0] != '"',
{
    if t.len() > 0 {
        if t[0] == '"' {
            assert(escape_quotes_spec(t)[0] == '\\');
        } else {
            assert(escape_quotes_spec(t)[0] == t[0]);
        }
    }
}

/// The quoting round trip: unescaping an escaped text gives the text back,
/// whatever quotes or backslashes it held — escaping introduces no
/// double-escaping artifacts.
pub proof fn lemma_quote_round_trip(t: Seq<char>)
    ensures
        unescape_quotes_spec(escape_quotes_spec(t)) == t,
    decreases t.len(),
{
    if t.len() == 0 {
        assert(unescape_quotes_spec(escape_quotes_spec(t)) =~= t);
    } else {
        let rest = t.skip(1);
        lemma_quote_round_trip(rest);
        if t[0] == '"' {
            let e = seq!['\\', '"'] + escape_quotes_spec(rest);
            assert(escape_quotes_spec(t) == e);
            assert(e[0] == '\\' && e[1] == '"');
            assert(e.skip(2) =~= escape_quotes_spec(rest));
            assert(unescape_quotes_spec(e) == seq!['"'] + unescape_quotes_spec(e.skip(2)));
            assert(seq!['"'] + rest =~= t);
        } else {
            let e = seq![t[0]] + escape_quotes_spec(rest);
            assert(escape_quotes_spec(t) == e);
            assert(e[0] == t[0]);
            lemma_escape_head(rest);
            if t[0] == '\\' && e.len() >= 2 && e[1] == '"' {
                assert(e[1] == escape_quotes_spec(rest)[0]);
                assert(false);
            }
            assert(!(e.len() >= 2 && e[0] == '\\' && e[1] == '"'));
            assert(unescape_quotes_spec(e) == seq![e[0]] + unescape_quotes_spec(e.skip(1)));
            assert(e.skip(1) =~= escape_quotes_spec(rest));
            assert(seq![t[0]] + rest =~= t);
        }
    }
}

/// In escaped text no quote stands alone: every literal quote character is
/// immediately preceded by a backslash.
pub proof fn lemma_escaped_quotes_are_escaped(t: Seq<char>)
    ensures
        forall|i: int|
            0 <= i < escape_quotes_spec(t).len() && #[trigger] escape_quotes_spec(t)[i] == '"'
                ==> i >= 1 && escape_quotes_spec(t)[i - 1] == '\\',
    decreases t.len(),
{
    if t.len() > 0 {
        let rest = t.skip(1);
        lemma_escaped_quotes_are_escaped(rest);
        let e = escape_quotes_spec(t);
        let tail = escape_quotes_spec(rest);
        let head_len: int = if t[0] == '"' {
            2
        } else {
            1
        };
        assert forall|i: int| 0 <= i < e.len() && #[trigger] e[i] == '"' implies i >= 1 && e[i - 1]
            == '\\' by {
            if t[0] == '"' {
                assert(e == seq!['\\', '"'] + tail);
                if i >= head_len {
                    assert(e[i] == tail[i - head_len]);
                    assert(tail[i - head_len - 1] == e[i - 1]);
                } else {
                    assert(i == 1 && e[0] == '\\');
                }
            } else {
                assert(e == seq![t[0]] + tail);
                if i >= head_len {
                    assert(e[i] == tail[i - head_len]);
                    if i - head_len >= 1 {
                        assert(tail[i - head_len - 1] == e[i - 1]);
                    } else {
                        lemma_escape_head(rest);
                        assert(false);
                    }
                } else {
                    assert(e[0] == t[0]);
                    assert(t[0] != '"');
                    assert(false);
                }
            }
        }
    }
}

} // verus!
