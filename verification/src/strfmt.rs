//! Verified string rendering used by diagnostic messages: decimal numbers and
//! quoting of path strings so that characters unsafe for the result transport
//! are escaped.

use vstd::prelude::*;

verus! {

/// The decimal digit character for `d` (meaningful for `d < 10`).
pub open spec fn digit_char(d: nat) -> char {
    if d == 0 {
        '0'
    } else if d == 1 {
        '1'
    } else if d == 2 {
        '2'
    } else if d == 3 {
        '3'
    } else if d == 4 {
        '4'
    } else if d == 5 {
        '5'
    } else if d == 6 {
        '6'
    } else if d == 7 {
        '7'
    } else if d == 8 {
        '8'
    } else {
        '9'
    }
}

/// The decimal representation of `n`, most significant digit first.
pub open spec fn dec_rep(n: nat) -> Seq<char>
    decreases n,
{
    if n < 10 {
        seq![digit_char(n)]
    } else {
        dec_rep(n / 10).push(digit_char(n % 10))
    }
}

fn digit_str(d: usize) -> (r: &'static str)
    requires
        d < 10,
    ensures
        r@ =~= seq![digit_char(d as nat)],
{
    let r: &'static str = if d == 0 {
        "0"
    } else if d == 1 {
        "1"
    } else if d == 2 {
        "2"
    } else if d == 3 {
        "3"
    } else if d == 4 {
        "4"
    } else if d == 5 {
        "5"
    } else if d == 6 {
        "6"
    } else if d == 7 {
        "7"
    } else if d == 8 {
        "8"
    } else {
        "9"
    };
    proof {
        reveal_strlit("0");
        reveal_strlit("1");
        reveal_strlit("2");
        reveal_strlit("3");
        reveal_strlit("4");
        reveal_strlit("5");
        reveal_strlit("6");
        reveal_strlit("7");
        reveal_strlit("8");
        reveal_strlit("9");
    }
    r
}

/// Relies on std's `String::push`: appends exactly the one character.
#[verifier::external_body]
pub(crate) fn push_char(s: &mut String, c: char)
    ensures
        final(s)@ == old(s)@.push(c),
{
    s.push(c)
}

/// Render `n` in decimal.
pub fn usize_to_decimal(n: usize) -> (r: String)
    ensures
        r@ == dec_rep(n as nat),
    decreases n,
{
    if n < 10 {
        String::from_str(digit_str(n))
    } else {
        let mut s = usize_to_decimal(n / 10);
        s.append(digit_str(n % 10));
        proof {
            assert(s@ =~= dec_rep((n / 10) as nat).push(digit_char((n % 10) as nat)));
        }
        s
    }
}

/// How one character appears inside a quoted path: quote, backslash and the
/// common control characters are backslash-escaped, everything else stands
/// for itself.
pub open spec fn escaped_char(c: char) -> Seq<char> {
    if c == '"' {
        seq!['\\', '"']
    } else if c == '\\' {
        seq!['\\', '\\']
    } else if c == '\n' {
        seq!['\\', 'n']
    } else if c == '\r' {
        seq!['\\', 'r']
    } else if c == '\t' {
        seq!['\\', 't']
    } else {
        seq![c]
    }
}

/// The escaped form of a whole string.
pub open spec fn escape_seq(s: Seq<char>) -> Seq<char>
    decreases s.len(),
{
    if s.len() == 0 {
        Seq::empty()
    } else {
        escaped_char(s[0]) + escape_seq(s.drop_first())
    }
}

/// A string as it appears in a diagnostic message: double-quoted, with unsafe
/// characters escaped.
pub open spec fn quoted(s: Seq<char>) -> Seq<char> {
    seq!['"'] + escape_seq(s) + seq!['"']
}

proof fn lemma_escape_seq_app(a: Seq<char>, b: Seq<char>)
    ensures
        escape_seq(a + b) == escape_seq(a) + escape_seq(b),
    decreases a.len(),
{
    if a.len() == 0 {
        assert(a + b =~= b);
        assert(escape_seq(a) + escape_seq(b) =~= escape_seq(b));
    } else {
        assert((a + b).drop_first() =~= a.drop_first() + b);
        lemma_escape_seq_app(a.drop_first(), b);
        assert(escape_seq(a + b) =~= escape_seq(a) + escape_seq(b));
    }
}

/// Quote `s` for inclusion in a diagnostic message.
pub fn quote_for_message(s: &str) -> (r: String)
    ensures
        r@ == quoted(s@),
{
    let n = s.unicode_len();
    let mut out = String::from_str("\"");
    proof {
        reveal_strlit("\"");
        assert(out@ =~= seq!['"'] + escape_seq(s@.subrange(0, 0)));
    }
    let mut i: usize = 0;
    while i < n
        invariant
            i <= n,
            n == s@.len(),
            out@ == seq!['"'] + escape_seq(s@.subrange(0, i as int)),
        decreases n - i,
    {
        let c = s.get_char(i);
        proof {
            assert(s@.subrange(0, i + 1) =~= s@.subrange(0, i as int) + seq![s@[i as int]]);
            lemma_escape_seq_app(s@.subrange(0, i as int), seq![s@[i as int]]);
            assert(seq![s@[i as int]].drop_first() =~= Seq::<char>::empty());
            assert(escape_seq(Seq::<char>::empty()) =~= Seq::<char>::empty());
            assert(escape_seq(seq![s@[i as int]]) =~= escaped_char(s@[i as int]));
        }
        if c == '"' {
            out.append("\\\"");
            proof {
                reveal_strlit("\\\"");
                assert(out@ =~= seq!['"'] + escape_seq(s@.subrange(0, i + 1)));
            }
        } else if c == '\\' {
            out.append("\\\\");
            proof {
                reveal_strlit("\\\\");
                assert(out@ =~= seq!['"'] + escape_seq(s@.subrange(0, i + 1)));
            }
        } else if c == '\n' {
            out.append("\\n");
            proof {
                reveal_strlit("\\n");
                assert(out@ =~= seq!['"'] + escape_seq(s@.subrange(0, i + 1)));
            }
        } else if c == '\r' {
            out.append("\\r");
            proof {
                reveal_strlit("\\r");
                assert(out@ =~= seq!['"'] + escape_seq(s@.subrange(0, i + 1)));
            }
        } else if c == '\t' {
            out.append("\\t");
            proof {
                reveal_strlit("\\t");
                assert(out@ =~= seq!['"'] + escape_seq(s@.subrange(0, i + 1)));
            }
        } else {
            push_char(&mut out, c);
            proof {
                assert(out@ =~= seq!['"'] + escape_seq(s@.subrange(0, i + 1)));
            }
        }
        i += 1;
    }
    out.append("\"");
    proof {
        reveal_strlit("\"");
        assert(s@.subrange(0, n as int) =~= s@);
        assert(out@ =~= quoted(s@));
    }
    out
}

} // verus!
