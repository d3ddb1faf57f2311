//! Small verified string utilities shared by the rest of the crate: character
//! classification, case folding, comparison, splitting and number formatting.

use vstd::prelude::*;
use vstd::string::StrSliceExecFns;
use vstd::string::StringExecFns;

verus! {

/// Lower-case an ASCII letter; leave every other character unchanged.
pub open spec fn lower_char(c: char) -> char {
    if 'A' <= c && c <= 'Z' {
        ((c as u8) + 32) as char
    } else {
        c
    }
}

/// Character-wise ASCII lower-casing of a string.
pub open spec fn lower(s: Seq<char>) -> Seq<char> {
    s.map_values(|c: char| lower_char(c))
}

/// Lower-casing twice is the same as lower-casing once.
pub proof fn lemma_lower_idempotent(s: Seq<char>)
    ensures
        lower(lower(s)) == lower(s),
{
    assert(lower(lower(s)) =~= lower(s));
}

/// Lower-casing leaves a string without ASCII capitals unchanged.
pub proof fn lemma_lower_plain(s: Seq<char>)
    requires
        forall|k: int| 0 <= k < s.len() ==> !('A' <= #[trigger] s[k] && s[k] <= 'Z'),
    ensures
        lower(s) == s,
{
    assert(lower(s) =~= s);
}

/// Relies on String::push: appends exactly one character to the string.
#[verifier::external_body]
pub fn push_char(s: &mut String, c: char)
    ensures
        final(s)@ == old(s)@.push(c),
{
    s.push(c)
}

/// Character-by-character equality test between two string slices.
pub fn str_eq(a: &str, b: &str) -> (r: bool)
    ensures
        r == (a@ == b@),
{
    let alen = a.unicode_len();
    let blen = b.unicode_len();
    if alen != blen {
        assert(a@ != b@);
        return false;
    }
    let mut i: usize = 0;
    while i < alen
        invariant
            alen == a@.len(),
            blen == b@.len(),
            alen == blen,
            i <= alen,
            forall|k: int| 0 <= k < i ==> a@[k] == b@[k],
        decreases alen - i,
    {
        if a.get_char(i) != b.get_char(i) {
            return false;
        }
        i += 1;
    }
    assert(a@ =~= b@);
    true
}

/// ASCII lower-casing of a string slice.
pub fn to_lower(s: &str) -> (r: String)
    ensures
        r@ == lower(s@),
{
    let len = s.unicode_len();
    let mut out = String::new();
    let mut i: usize = 0;
    while i < len
        invariant
            len == s@.len(),
            i <= len,
            out@ =~= lower(s@.subrange(0, i as int)),
        decreases len - i,
    {
        let c = s.get_char(i);
        let lc: char = if 'A' <= c && c <= 'Z' {
            ((c as u8) + 32) as char
        } else {
            c
        };
        assert(lc == lower_char(c));
        push_char(&mut out, lc);
        i += 1;
        assert(out@ =~= lower(s@.subrange(0, i as int)));
    }
    assert(s@.subrange(0, len as int) =~= s@);
    out
}

/// ASCII whitespace, as far as the inputs of this crate are concerned.
pub open spec fn is_space(c: char) -> bool {
    c == ' ' || c == '\t' || c == '\n' || c == '\r'
}

/// Drop leading whitespace.
pub open spec fn trim_start_spec(s: Seq<char>) -> Seq<char>
    decreases s.len(),
{
    if s.len() > 0 && is_space(s[0]) {
        trim_start_spec(s.drop_first())
    } else {
        s
    }
}

/// Drop trailing whitespace.
pub open spec fn trim_end_spec(s: Seq<char>) -> Seq<char>
    decreases s.len(),
{
    if s.len() > 0 && is_space(s[s.len() - 1]) {
        trim_end_spec(s.drop_last())
    } else {
        s
    }
}

/// Drop whitespace from both ends.
pub open spec fn trim_spec(s: Seq<char>) -> Seq<char> {
    trim_end_spec(trim_start_spec(s))
}

proof fn lemma_trim_start_at(s: Seq<char>, i: int)
    requires
        0 <= i <= s.len(),
        forall|k: int| 0 <= k < i ==> is_space(s[k]),
        i < s.len() ==> !is_space(s[i]),
    ensures
        trim_start_spec(s) == s.subrange(i, s.len() as int),
    decreases i,
{
    if i == 0 {
        if s.len() > 0 && is_space(s[0]) {
            assert(false);
        }
        assert(s.subrange(0, s.len() as int) =~= s);
    } else {
        let t = s.drop_first();
        lemma_trim_start_at(t, i - 1);
        assert(t.subrange(i - 1, t.len() as int) =~= s.subrange(i, s.len() as int));
    }
}

proof fn lemma_trim_end_at(s: Seq<char>, j: int)
    requires
        0 <= j <= s.len(),
        forall|k: int| j <= k < s.len() ==> is_space(s[k]),
        j > 0 ==> !is_space(s[j - 1]),
    ensures
        trim_end_spec(s) == s.subrange(0, j),
    decreases s.len(),
{
    if j == s.len() {
        if s.len() > 0 && is_space(s[s.len() - 1]) {
            assert(false);
        }
        assert(s.subrange(0, s.len() as int) =~= s);
    } else {
        let t = s.drop_last();
        lemma_trim_end_at(t, j);
        assert(t.subrange(0, j) =~= s.subrange(0, j));
    }
}

/// Whether a character is ASCII whitespace.
fn is_space_char(c: char) -> (r: bool)
    ensures
        r == is_space(c),
{
    c == ' ' || c == '\t' || c == '\n' || c == '\r'
}

/// Trim whitespace from both ends of a string slice.
pub fn trim(s: &str) -> (r: String)
    ensures
        r@ == trim_spec(s@),
{
    let len = s.unicode_len();
    let mut i: usize = 0;
    while i < len && is_space_char(s.get_char(i))
        invariant
            len == s@.len(),
            i <= len,
            forall|k: int| 0 <= k < i ==> is_space(s@[k]),
        decreases len - i,
    {
        i += 1;
    }
    proof {
        lemma_trim_start_at(s@, i as int);
    }
    if i == len {
        assert(s@.subrange(len as int, len as int) =~= Seq::<char>::empty());
        assert(trim_end_spec(Seq::<char>::empty()) =~= Seq::<char>::empty());
        return String::new();
    }
    let mut j: usize = len;
    while j > i && is_space_char(s.get_char(j - 1))
        invariant
            len == s@.len(),
            i <= j <= len,
            i < len,
            !is_space(s@[i as int]),
            forall|k: int| j <= k < len ==> is_space(s@[k]),
        decreases j,
    {
        j -= 1;
    }
    assert(j > i) by {
        if j == i {
            assert(is_space(s@[i as int]));
        }
    }
    let piece = s.substring_char(i, j);
    proof {
        let t = s@.subrange(i as int, len as int);
        lemma_trim_end_at(t, j - i);
        assert(t.subrange(0, j - i) =~= s@.subrange(i as int, j as int));
    }
    piece.to_owned()
}

/// Index of the first occurrence of `c`, or -1 when there is none.
pub open spec fn find_char(s: Seq<char>, c: char) -> int
    decreases s.len(),
{
    if s.len() == 0 {
        -1
    } else if s[0] == c {
        0
    } else {
        let r = find_char(s.drop_first(), c);
        if r < 0 {
            -1
        } else {
            r + 1
        }
    }
}

pub proof fn lemma_find_char_none(s: Seq<char>, c: char)
    requires
        forall|k: int| 0 <= k < s.len() ==> s[k] != c,
    ensures
        find_char(s, c) == -1,
    decreases s.len(),
{
    if s.len() > 0 {
        lemma_find_char_none(s.drop_first(), c);
    }
}

pub proof fn lemma_find_char_at(s: Seq<char>, c: char, i: int)
    requires
        0 <= i < s.len(),
        s[i] == c,
        forall|k: int| 0 <= k < i ==> s[k] != c,
    ensures
        find_char(s, c) == i,
    decreases i,
{
    if i > 0 {
        lemma_find_char_at(s.drop_first(), c, i - 1);
    }
}

/// Index of the first comma, or -1 when there is none.
pub open spec fn find_comma(s: Seq<char>) -> int {
    find_char(s, ',')
}

/// Split on commas; a string with no comma is a single piece, and every comma
/// separates two pieces, so the result always has one piece more than there
/// are commas.
pub open spec fn split_commas(s: Seq<char>) -> Seq<Seq<char>>
    decreases s.len(),
{
    let i = find_comma(s);
    if 0 <= i && i < s.len() {
        seq![s.subrange(0, i)] + split_commas(s.subrange(i + 1, s.len() as int))
    } else {
        seq![s]
    }
}

/// Split on commas, trimming whitespace from each piece.
pub open spec fn split_trim_spec(s: Seq<char>) -> Seq<Seq<char>> {
    split_commas(s).map_values(|p: Seq<char>| trim_spec(p))
}

proof fn lemma_map_trim_add(a: Seq<Seq<char>>, b: Seq<Seq<char>>)
    ensures
        (a + b).map_values(|p: Seq<char>| trim_spec(p)) == a.map_values(
            |p: Seq<char>| trim_spec(p),
        ) + b.map_values(|p: Seq<char>| trim_spec(p)),
{
    assert((a + b).map_values(|p: Seq<char>| trim_spec(p)) =~= a.map_values(
        |p: Seq<char>| trim_spec(p),
    ) + b.map_values(|p: Seq<char>| trim_spec(p)));
}

/// Split a string at its commas and trim each resulting piece.
pub fn split_and_trim(s: &str) -> (r: Vec<String>)
    ensures
        r.deep_view() == split_trim_spec(s@),
        r.len() > 0,
{
    let len = s.unicode_len();
    let mut out: Vec<String> = Vec::new();
    let mut start: usize = 0;
    let ghost whole = split_trim_spec(s@);
    proof {
        assert(s@.subrange(0, len as int) =~= s@);
    }
    loop
        invariant_except_break
            out.deep_view() + split_trim_spec(s@.subrange(start as int, len as int)) == whole,
        invariant
            len == s@.len(),
            start <= len,
        ensures
            out.deep_view() == whole,
            out.len() > 0,
        decreases len - start,
    {
        let ghost rem = s@.subrange(start as int, len as int);
        let mut pos: usize = start;
        let mut found = false;
        while !found && pos < len
            invariant
                len == s@.len(),
                start <= pos <= len,
                forall|k: int| start <= k < pos ==> s@[k] != ',',
                found ==> pos < len && s@[pos as int] == ',',
            decreases len - pos, (if found { 0int } else { 1int }),
        {
            if s.get_char(pos) == ',' {
                found = true;
            } else {
                pos += 1;
            }
        }
        let piece = s.substring_char(start, pos);
        let t = trim(piece);
        out.push(t);
        proof {
            let tf = |p: Seq<char>| trim_spec(p);
            if found {
                lemma_find_char_at(rem, ',', pos - start);
                assert(rem.subrange(0, pos - start) =~= s@.subrange(start as int, pos as int));
                assert(rem.subrange(pos - start + 1, rem.len() as int) =~= s@.subrange(
                    pos + 1,
                    len as int,
                ));
                assert(split_commas(rem) == seq![s@.subrange(start as int, pos as int)]
                    + split_commas(s@.subrange(pos + 1, len as int)));
                lemma_map_trim_add(
                    seq![s@.subrange(start as int, pos as int)],
                    split_commas(s@.subrange(pos + 1, len as int)),
                );
                assert(seq![s@.subrange(start as int, pos as int)].map_values(tf)
                    =~= seq![tf(s@.subrange(start as int, pos as int))]);
                assert(out.deep_view() + split_trim_spec(s@.subrange(pos + 1, len as int))
                    =~= whole);
            } else {
                assert(pos == len);
                lemma_find_char_none(rem, ',');
                assert(split_commas(rem) == seq![rem]);
                assert(split_commas(rem).map_values(tf) =~= seq![tf(rem)]);
                assert(rem =~= s@.subrange(start as int, pos as int));
                assert(out.deep_view() =~= whole);
            }
        }
        if !found {
            break ;
        }
        start = pos + 1;
    }
    out
}

/// The decimal digit for a value below ten.
pub open spec fn dec_digit(n: int) -> char {
    ((48 + n) as u8) as char
}

/// Decimal representation of a natural number, most significant digit first.
pub open spec fn dec_str(n: int) -> Seq<char>
    decreases n,
{
    if n < 10 {
        seq![dec_digit(n)]
    } else {
        dec_str(n / 10).push(dec_digit(n % 10))
    }
}

/// Format a number in decimal.
pub fn u32_to_dec(n: u32) -> (r: String)
    ensures
        r@ == dec_str(n as int),
    decreases n,
{
    if n < 10 {
        let mut out = String::new();
        let d: char = ((48 + (n as u8)) as u8) as char;
        assert(d == dec_digit(n as int));
        push_char(&mut out, d);
        assert(out@ =~= dec_str(n as int));
        out
    } else {
        let mut out = u32_to_dec(n / 10);
        let rem: u32 = n % 10;
        let d: char = ((48 + (rem as u8)) as u8) as char;
        assert(d == dec_digit(n as int % 10));
        push_char(&mut out, d);
        out
    }
}

/// Join pieces with a comma between neighbours.
pub open spec fn join_commas_spec(vs: Seq<Seq<char>>) -> Seq<char>
    decreases vs.len(),
{
    if vs.len() == 0 {
        Seq::empty()
    } else if vs.len() == 1 {
        vs[0]
    } else {
        vs[0] + seq![','] + join_commas_spec(vs.drop_first())
    }
}

pub proof fn lemma_join_commas_snoc(vs: Seq<Seq<char>>, p: Seq<char>)
    requires
        vs.len() > 0,
    ensures
        join_commas_spec(vs.push(p)) == join_commas_spec(vs) + seq![','] + p,
    decreases vs.len(),
{
    if vs.len() == 1 {
        assert(vs.push(p)[0] == vs[0]);
        assert(vs.push(p).drop_first() =~= seq![p]);
        assert(join_commas_spec(seq![p]) == p);
    } else {
        lemma_join_commas_snoc(vs.drop_first(), p);
        assert(vs.push(p).drop_first() =~= vs.drop_first().push(p));
        assert(join_commas_spec(vs.push(p)) == vs[0] + seq![','] + join_commas_spec(
            vs.drop_first().push(p),
        ));
        assert(vs[0] + seq![','] + (join_commas_spec(vs.drop_first()) + seq![','] + p) =~= (vs[0]
            + seq![','] + join_commas_spec(vs.drop_first())) + seq![','] + p);
    }
}

/// Join strings with commas.
pub fn join_commas(vs: &Vec<String>) -> (r: String)
    ensures
        r@ == join_commas_spec(vs.deep_view()),
{
    let mut out = String::new();
    let mut i: usize = 0;
    while i < vs.len()
        invariant
            i <= vs.len(),
            out@ == join_commas_spec(vs.deep_view().subrange(0, i as int)),
        decreases vs.len() - i,
    {
        if i > 0 {
            push_char(&mut out, ',');
        }
        let ghost pre = vs.deep_view().subrange(0, i as int);
        out.append(vs[i].as_str());
        i += 1;
        proof {
            let cur = vs.deep_view().subrange(0, i as int);
            assert(cur =~= pre.push(vs.deep_view()[i - 1]));
            if pre.len() == 0 {
                assert(cur =~= seq![vs.deep_view()[i - 1]]);
            } else {
                lemma_join_commas_snoc(pre, vs.deep_view()[i - 1]);
            }
        }
    }
    proof {
        assert(vs.deep_view().subrange(0, vs.len() as int) =~= vs.deep_view());
    }
    out
}

} // verus!
