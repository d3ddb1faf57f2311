//! JSON string-literal escaping, verified to be invertible: the build-server
//! wire body embeds every parameter name and value as a JSON string literal.

use vstd::prelude::*;
use vstd::string::StrSliceExecFns;
use vstd::string::StringExecFns;

use crate::strutil::push_char;

verus! {

/// The hexadecimal digit for a value below sixteen, lower case.
pub open spec fn hex_digit(n: int) -> char {
    if n < 10 {
        ((48 + n) as u8) as char
    } else {
        ((87 + n) as u8) as char
    }
}

/// How one character is written inside a JSON string literal: quote and
/// backslash get a backslash escape, the common control characters get their
/// short escapes, the remaining control characters a `\u00XX` escape, and
/// every other character stands for itself.
pub open spec fn esc_char(c: char) -> Seq<char> {
    if c == '"' {
        seq!['\\', '"']
    } else if c == '\\' {
        seq!['\\', '\\']
    } else if c == '\u{8}' {
        seq!['\\', 'b']
    } else if c == '\u{9}' {
        seq!['\\', 't']
    } else if c == '\u{a}' {
        seq!['\\', 'n']
    } else if c == '\u{c}' {
        seq!['\\', 'f']
    } else if c == '\u{d}' {
        seq!['\\', 'r']
    } else if 0 <= (c as int) && (c as int) < 32 {
        seq!['\\', 'u', '0', '0', hex_digit((c as int) / 16), hex_digit((c as int) % 16)]
    } else {
        seq![c]
    }
}

/// A whole string, escaped character by character.
pub open spec fn esc(s: Seq<char>) -> Seq<char>
    decreases s.len(),
{
    if s.len() == 0 {
        Seq::empty()
    } else {
        esc_char(s[0]) + esc(s.drop_first())
    }
}

pub proof fn lemma_esc_push(s: Seq<char>, c: char)
    ensures
        esc(s.push(c)) == esc(s) + esc_char(c),
    decreases s.len(),
{
    if s.len() == 0 {
        assert(s.push(c)[0] == c);
        assert(s.push(c).drop_first() =~= s);
        assert(esc(s) =~= Seq::<char>::empty());
        assert(esc(s.push(c)) =~= esc(s) + esc_char(c));
    } else {
        assert(s.push(c).drop_first() =~= s.drop_first().push(c));
        lemma_esc_push(s.drop_first(), c);
        assert(esc_char(s[0]) + (esc(s.drop_first()) + esc_char(c)) =~= (esc_char(s[0]) + esc(
            s.drop_first(),
        )) + esc_char(c));
    }
}

/// A character that stands for itself inside a JSON string literal.
pub open spec fn plain_char(c: char) -> bool {
    c != '"' && c != '\\' && !(0 <= (c as int) && (c as int) < 32)
}

/// Escaping leaves a string of plain characters unchanged.
pub proof fn lemma_esc_plain(s: Seq<char>)
    requires
        forall|k: int| 0 <= k < s.len() ==> plain_char(#[trigger] s[k]),
    ensures
        esc(s) == s,
    decreases s.len(),
{
    if s.len() == 0 {
        assert(esc(s) =~= s);
    } else {
        lemma_esc_plain(s.drop_first());
        assert(esc_char(s[0]) =~= seq![s[0]]);
        assert(esc(s) =~= s);
    }
}

/// The hexadecimal digit characters for a control character's code.
fn hex_digit_exec(n: u32) -> (r: char)
    requires
        n < 16,
    ensures
        r == hex_digit(n as int),
{
    if n < 10 {
        ((48 + n) as u8) as char
    } else {
        ((87 + n) as u8) as char
    }
}

/// Append the JSON-escaped form of `s` to `out`.
pub fn append_escaped(out: &mut String, s: &str)
    ensures
        final(out)@ == old(out)@ + esc(s@),
{
    let len = s.unicode_len();
    let mut i: usize = 0;
    proof {
        assert(s@.subrange(0, 0) =~= Seq::<char>::empty());
        assert(old(out)@ + esc(s@.subrange(0, 0)) =~= old(out)@);
    }
    while i < len
        invariant
            len == s@.len(),
            i <= len,
            out@ == old(out)@ + esc(s@.subrange(0, i as int)),
        decreases len - i,
    {
        let c = s.get_char(i);
        let ghost pre = s@.subrange(0, i as int);
        if c == '"' {
            push_char(out, '\\');
            push_char(out, '"');
        } else if c == '\\' {
            push_char(out, '\\');
            push_char(out, '\\');
        } else if c == '\u{8}' {
            push_char(out, '\\');
            push_char(out, 'b');
        } else if c == '\u{9}' {
            push_char(out, '\\');
            push_char(out, 't');
        } else if c == '\u{a}' {
            push_char(out, '\\');
            push_char(out, 'n');
        } else if c == '\u{c}' {
            push_char(out, '\\');
            push_char(out, 'f');
        } else if c == '\u{d}' {
            push_char(out, '\\');
            push_char(out, 'r');
        } else {
            let code = c as u32;
            if code < 32 {
                push_char(out, '\\');
                push_char(out, 'u');
                push_char(out, '0');
                push_char(out, '0');
                push_char(out, hex_digit_exec(code / 16));
                push_char(out, hex_digit_exec(code % 16));
            } else {
                push_char(out, c);
            }
        }
        i += 1;
        proof {
            lemma_esc_push(pre, c);
            assert(s@.subrange(0, i as int) =~= pre.push(c));
            assert(out@ =~= old(out)@ + esc(s@.subrange(0, i as int)));
        }
    }
    proof {
        assert(s@.subrange(0, len as int) =~= s@);
    }
}

/// Escape a string for embedding in a JSON string literal.
pub fn escape(s: &str) -> (r: String)
    ensures
        r@ == esc(s@),
{
    let mut out = String::new();
    append_escaped(&mut out, s);
    out
}

/// Decode a JSON string literal's body up to its closing quote: the decoded
/// characters, and what follows the quote. `None` when the input ends before
/// an unescaped closing quote, or when a backslash is not followed by a
/// valid escape.
pub open spec fn scan_string(s: Seq<char>) -> Option<(Seq<char>, Seq<char>)>
    decreases s.len(),
{
    if s.len() == 0 {
        None
    } else if s[0] == '"' {
        Some((Seq::empty(), s.drop_first()))
    } else if s[0] == '\\' {
        if s.len() < 2 {
            None
        } else if s[1] == 'u' {
            if s.len() >= 6 && hex_val(s[2]) >= 0 && hex_val(s[3]) >= 0 && hex_val(s[4]) >= 0
                && hex_val(s[5]) >= 0 {
                let code = ((hex_val(s[2]) * 16 + hex_val(s[3])) * 16 + hex_val(s[4])) * 16
                    + hex_val(s[5]);
                match scan_string(s.subrange(6, s.len() as int)) {
                    Some((c, r)) => Some((seq![code as char] + c, r)),
                    None => None,
                }
            } else {
                None
            }
        } else {
            let d: Option<char> = if s[1] == '"' {
                Some('"')
            } else if s[1] == '\\' {
                Some('\\')
            } else if s[1] == '/' {
                Some('/')
            } else if s[1] == 'b' {
                Some('\u{8}')
            } else if s[1] == 'f' {
                Some('\u{c}')
            } else if s[1] == 'n' {
                Some('\u{a}')
            } else if s[1] == 'r' {
                Some('\u{d}')
            } else if s[1] == 't' {
                Some('\u{9}')
            } else {
                None
            };
            match d {
                Some(dc) => match scan_string(s.subrange(2, s.len() as int)) {
                    Some((c, r)) => Some((seq![dc] + c, r)),
                    None => None,
                },
                None => None,
            }
        }
    } else {
        match scan_string(s.drop_first()) {
            Some((c, r)) => Some((seq![s[0]] + c, r)),
            None => None,
        }
    }
}

/// A successful scan always consumes at least the closing quote.
pub proof fn lemma_scan_consumes(s: Seq<char>)
    ensures
        scan_string(s) matches Some((c, r)) ==> r.len() < s.len(),
    decreases s.len(),
{
    if s.len() == 0 {
    } else if s[0] == '"' {
    } else if s[0] == '\\' {
        if s.len() >= 6 && s[1] == 'u' {
            lemma_scan_consumes(s.subrange(6, s.len() as int));
        } else if s.len() >= 2 && s[1] != 'u' {
            lemma_scan_consumes(s.subrange(2, s.len() as int));
        }
    } else {
        lemma_scan_consumes(s.drop_first());
    }
}

/// Scanning the escaped form of a string followed by a closing quote reads
/// back exactly that string, and stops exactly at the quote.
#[verifier::rlimit(60)]
pub proof fn lemma_scan_escaped(x: Seq<char>, t: Seq<char>)
    ensures
        scan_string(esc(x) + seq!['"'] + t) == Some((x, t)),
    decreases x.len(),
{
    if x.len() == 0 {
        let w = esc(x) + seq!['"'] + t;
        assert(w =~= seq!['"'] + t);
        assert(w[0] == '"');
        assert(w.drop_first() =~= t);
        assert(scan_string(w) == Some((Seq::<char>::empty(), t)));
        assert(x =~= Seq::<char>::empty());
    } else {
        let c = x[0];
        let rest = x.drop_first();
        lemma_scan_escaped(rest, t);
        let w = esc(x) + seq!['"'] + t;
        let inner = esc(rest) + seq!['"'] + t;
        assert(w =~= esc_char(c) + inner);
        if c == '"' || c == '\\' || c == '\u{8}' || c == '\u{9}' || c == '\u{a}' || c == '\u{c}'
            || c == '\u{d}' {
            assert(w.subrange(2, w.len() as int) =~= inner);
            assert(scan_string(w) == Some((seq![c] + rest, t)));
            assert(seq![c] + rest =~= x);
        } else if 0 <= (c as int) && (c as int) < 32 {
            let code: int = c as int;
            assert(w[0] == '\\' && w[1] == 'u' && w[2] == '0' && w[3] == '0');
            assert(w[4] == hex_digit(code / 16) && w[5] == hex_digit(code % 16));
            lemma_hex_digit_val(code / 16);
            lemma_hex_digit_val(code % 16);
            assert(hex_val(w[2]) == 0 && hex_val(w[3]) == 0);
            let decoded = ((hex_val(w[2]) * 16 + hex_val(w[3])) * 16 + hex_val(w[4])) * 16
                + hex_val(w[5]);
            assert(decoded == code);
            assert((decoded as char) == c);
            assert(w.subrange(6, w.len() as int) =~= inner);
            assert(scan_string(w) == Some((seq![c] + rest, t)));
            assert(seq![c] + rest =~= x);
        } else {
            assert(esc_char(c) =~= seq![c]);
            assert(w[0] == c && c != '"' && c != '\\');
            assert(w.drop_first() =~= inner);
            assert(scan_string(w) == Some((seq![c] + rest, t)));
            assert(seq![c] + rest =~= x);
        }
    }
}

/// The numeric value of a hexadecimal digit, or -1 for other characters.
pub open spec fn hex_val(c: char) -> int {
    if '0' <= c && c <= '9' {
        (c as u32) - 48
    } else if 'a' <= c && c <= 'f' {
        (c as u32) - 87
    } else if 'A' <= c && c <= 'F' {
        (c as u32) - 55
    } else {
        -1
    }
}

proof fn lemma_hex_digit_val(n: int)
    requires
        0 <= n < 16,
    ensures
        hex_val(hex_digit(n)) == n,
{
}

} // verus!
