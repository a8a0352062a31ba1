//! Rendering permitted root directories as `file://` URIs: percent-escaping
//! of characters unsafe in a URI path, a trailing slash for directories, and
//! the bulleted listing used in diagnostics.

use vstd::prelude::*;
use crate::strfmt::digit_char;

verus! {

/// Characters that stand for themselves in a rendered URI path. Escaped are
/// the ASCII controls, space, `"`, `<`, `>`, backquote, `#`, `?`, `{`, `}`,
/// `%` and backslash; everything else, including all non-ASCII characters,
/// passes through (a URI parser re-encodes non-ASCII text itself).
pub open spec fn is_uri_plain(c: char) -> bool {
    let u = c as u32;
    &&& u > 0x20
    &&& u != 0x7f
    &&& c != '"'
    &&& c != '<'
    &&& c != '>'
    &&& c != '`'
    &&& c != '#'
    &&& c != '?'
    &&& c != '{'
    &&& c != '}'
    &&& c != '%'
    &&& c != '\\'
}

/// The uppercase hexadecimal digit for `d` (meaningful for `d < 16`).
pub open spec fn hex_char(d: nat) -> char {
    if d < 10 {
        digit_char(d)
    } else if d == 10 {
        'A'
    } else if d == 11 {
        'B'
    } else if d == 12 {
        'C'
    } else if d == 13 {
        'D'
    } else if d == 14 {
        'E'
    } else {
        'F'
    }
}

/// How one character appears in a rendered URI path.
pub open spec fn uri_escaped_char(c: char) -> Seq<char> {
    if is_uri_plain(c) {
        seq![c]
    } else {
        seq!['%', hex_char((c as u32) as nat / 16), hex_char((c as u32) as nat % 16)]
    }
}

/// The escaped form of a whole path.
pub open spec fn uri_escape(s: Seq<char>) -> Seq<char>
    decreases s.len(),
{
    if s.len() == 0 {
        Seq::empty()
    } else {
        uri_escaped_char(s[0]) + uri_escape(s.drop_first())
    }
}

/// An absolute file path rendered as a `file://` URI.
pub open spec fn file_uri(path: Seq<char>) -> Seq<char> {
    "file://"@ + uri_escape(path)
}

/// An absolute directory path rendered as a `file://` URI, with a trailing
/// slash as directory URIs carry one.
pub open spec fn directory_uri(path: Seq<char>) -> Seq<char> {
    let base = file_uri(path);
    if path.len() > 0 && path[path.len() - 1] == '/' {
        base
    } else {
        base.push('/')
    }
}

proof fn lemma_uri_escape_app(a: Seq<char>, b: Seq<char>)
    ensures
        uri_escape(a + b) == uri_escape(a) + uri_escape(b),
    decreases a.len(),
{
    if a.len() == 0 {
        assert(a + b =~= b);
        assert(uri_escape(a) + uri_escape(b) =~= uri_escape(b));
    } else {
        assert((a + b).drop_first() =~= a.drop_first() + b);
        lemma_uri_escape_app(a.drop_first(), b);
        assert(uri_escape(a + b) =~= uri_escape(a) + uri_escape(b));
    }
}

fn hex_str(d: u32) -> (r: &'static str)
    requires
        d < 16,
    ensures
        r@ =~= seq![hex_char(d as nat)],
{
    let r: &'static str = if d == 0 {
        "0"
    } else if d == 1 {
        "1"
    } else if d == 2 {
        "2"
    } else if d == 3 {
        "3"
    } else if d == 4 {
        "4"
    } else if d == 5 {
        "5"
    } else if d == 6 {
        "6"
    } else if d == 7 {
        "7"
    } else if d == 8 {
        "8"
    } else if d == 9 {
        "9"
    } else if d == 10 {
        "A"
    } else if d == 11 {
        "B"
    } else if d == 12 {
        "C"
    } else if d == 13 {
        "D"
    } else if d == 14 {
        "E"
    } else {
        "F"
    };
    proof {
        reveal_strlit("0");
        reveal_strlit("1");
        reveal_strlit("2");
        reveal_strlit("3");
        reveal_strlit("4");
        reveal_strlit("5");
        reveal_strlit("6");
        reveal_strlit("7");
        reveal_strlit("8");
        reveal_strlit("9");
        reveal_strlit("A");
        reveal_strlit("B");
        reveal_strlit("C");
        reveal_strlit("D");
        reveal_strlit("E");
        reveal_strlit("F");
    }
    r
}

fn is_plain_exec(c: char) -> (r: bool)
    ensures
        r == is_uri_plain(c),
{
    let u = c as u32;
    u > 0x20 && u != 0x7f && c != '"' && c != '<' && c != '>' && c != '`' && c != '#' && c != '?'
        && c != '{' && c != '}' && c != '%' && c != '\\'
}

fn append_uri_escaped(out: &mut String, c: char)
    ensures
        final(out)@ == old(out)@ + uri_escaped_char(c),
{
    if is_plain_exec(c) {
        crate::strfmt::push_char(out, c);
        proof {
            assert(old(out)@.push(c) =~= old(out)@ + uri_escaped_char(c));
        }
    } else {
        let u = c as u32;
        assert(u < 0x80);
        crate::strfmt::push_char(out, '%');
        out.append(hex_str(u / 16));
        out.append(hex_str(u % 16));
        proof {
            assert(old(out)@.push('%') + seq![hex_char((u / 16) as nat)] + seq![
                hex_char((u % 16) as nat),
            ] =~= old(out)@ + uri_escaped_char(c));
        }
    }
}

/// Render an absolute file path as a `file://` URI with escaping.
pub fn file_uri_string(path: &str) -> (r: String)
    ensures
        r@ == file_uri(path@),
{
    let n = path.unicode_len();
    let mut out = String::from_str("file://");
    proof {
        assert(out@ =~= "file://"@ + uri_escape(path@.subrange(0, 0)));
    }
    let mut i: usize = 0;
    while i < n
        invariant
            i <= n,
            n == path@.len(),
            out@ == "file://"@ + uri_escape(path@.subrange(0, i as int)),
        decreases n - i,
    {
        let c = path.get_char(i);
        proof {
            assert(path@.subrange(0, i + 1) =~= path@.subrange(0, i as int) + seq![
                path@[i as int],
            ]);
            lemma_uri_escape_app(path@.subrange(0, i as int), seq![path@[i as int]]);
            assert(seq![path@[i as int]].drop_first() =~= Seq::<char>::empty());
            assert(uri_escape(Seq::<char>::empty()) =~= Seq::<char>::empty());
            assert(uri_escape(seq![path@[i as int]]) =~= uri_escaped_char(path@[i as int]));
        }
        append_uri_escaped(&mut out, c);
        proof {
            assert(out@ =~= "file://"@ + uri_escape(path@.subrange(0, i + 1)));
        }
        i += 1;
    }
    proof {
        assert(path@.subrange(0, n as int) =~= path@);
    }
    out
}

/// Render an absolute directory path as a `file://` URI with escaping and a
/// trailing slash.
pub fn directory_uri_string(path: &str) -> (r: String)
    ensures
        r@ == directory_uri(path@),
{
    let mut out = file_uri_string(path);
    let n = path.unicode_len();
    if n == 0 || path.get_char(n - 1) != '/' {
        crate::strfmt::push_char(&mut out, '/');
    }
    out
}

} // verus!
