//! Small verified helpers on strings: padding, ASCII case folding,
//! carriage-return replacement and equality, shared by the palette and the
//! renderer.

use vstd::prelude::*;

verus! {

/// Appends one character to a string.
pub assume_specification[ String::push ](s: &mut String, c: char)
    ensures
        final(s)@ == old(s)@.push(c),
;

/// Maps the ASCII letters 'A' to 'Z' to their lower-case equivalents and
/// leaves every other character unchanged.
pub open spec fn lower_char(c: char) -> char {
    if 'A' <= c && c <= 'Z' {
        ((c as int) + 32) as char
    } else {
        c
    }
}

/// Relies on char::to_ascii_lowercase: ASCII letters 'A' to 'Z' are mapped to
/// 'a' to 'z' (a code-point shift of 32); all other characters are unchanged.
pub assume_specification[ char::to_ascii_lowercase ](c: &char) -> (r: char)
    ensures
        r == lower_char(*c),
;

/// A run of `n` space characters (empty when `n <= 0`).
pub open spec fn spaces(n: int) -> Seq<char>
    decreases n,
{
    if n <= 0 {
        Seq::empty()
    } else {
        spaces(n - 1).push(' ')
    }
}

pub proof fn lemma_spaces_all_blank(n: int)
    ensures
        spaces(n).len() == if n <= 0 { 0 } else { n },
        forall|i: int| 0 <= i < spaces(n).len() ==> spaces(n)[i] == ' ',
    decreases n,
{
    if n > 0 {
        lemma_spaces_all_blank(n - 1);
    }
}

/// `s` left-justified in a field of minimum width `w`: padded with trailing
/// spaces when shorter, never truncated.
pub open spec fn pad_min(s: Seq<char>, w: int) -> Seq<char> {
    s + spaces(w - s.len())
}

pub proof fn lemma_pad_min_len(s: Seq<char>, w: int)
    ensures
        pad_min(s, w).len() == if s.len() < w { w as nat } else { s.len() },
        w >= 0 ==> pad_min(s, w).len() >= w,
{
    lemma_spaces_all_blank(w - s.len());
}

/// Every character of `s` folded to ASCII lower case.
pub open spec fn fold_lower(s: Seq<char>) -> Seq<char> {
    s.map_values(|c: char| lower_char(c))
}

/// `s` with every carriage-return character replaced by a single space.
pub open spec fn replace_cr(s: Seq<char>) -> Seq<char> {
    s.map_values(|c: char| if c == '\r' { ' ' } else { c })
}

/// Whether two strings hold the same characters.
pub fn str_eq(a: &str, b: &str) -> (r: bool)
    ensures
        r == (a@ == b@),
{
    let x: String = a.to_owned();
    let y: String = b.to_owned();
    x == y
}

/// `s` followed by spaces up to a minimum character width of `w`.
pub fn pad_min_exec(s: &str, w: usize) -> (r: String)
    ensures
        r@ == pad_min(s@, w as int),
{
    let mut out: String = s.to_owned();
    let mut n: usize = s.unicode_len();
    proof {
        assert(out@ =~= s@ + spaces(n - s@.len()));
    }
    while n < w
        invariant
            n >= s@.len(),
            n == s@.len() || n <= w,
            out@ == s@ + spaces(n - s@.len()),
        decreases w - n,
    {
        out.push(' ');
        n = n + 1;
        proof {
            assert(out@ =~= s@ + spaces(n - s@.len()));
        }
    }
    proof {
        assert(out@ =~= pad_min(s@, w as int));
    }
    out
}

/// `s` folded to ASCII lower case.
pub fn fold_lower_exec(s: &str) -> (r: String)
    ensures
        r@ == fold_lower(s@),
{
    let n = s.unicode_len();
    let mut out = String::new();
    let mut i: usize = 0;
    while i < n
        invariant
            i <= n,
            n == s@.len(),
            out@ == fold_lower(s@.take(i as int)),
        decreases n - i,
    {
        let c = s.get_char(i);
        out.push(c.to_ascii_lowercase());
        proof {
            s@.lemma_map_take_succ(|x: char| lower_char(x), i as int);
        }
        i = i + 1;
    }
    proof {
        assert(s@.take(n as int) =~= s@);
    }
    out
}

/// `s` with every carriage return replaced by a single space.
pub fn replace_cr_exec(s: &str) -> (r: String)
    ensures
        r@ == replace_cr(s@),
{
    let n = s.unicode_len();
    let mut out = String::new();
    let mut i: usize = 0;
    while i < n
        invariant
            i <= n,
            n == s@.len(),
            out@ == replace_cr(s@.take(i as int)),
        decreases n - i,
    {
        let c = s.get_char(i);
        if c == '\r' {
            out.push(' ');
        } else {
            out.push(c);
        }
        proof {
            s@.lemma_map_take_succ(|x: char| if x == '\r' { ' ' } else { x }, i as int);
        }
        i = i + 1;
    }
    proof {
        assert(s@.take(n as int) =~= s@);
    }
    out
}

/// Whether `s` is free of the escape character that introduces ANSI
/// terminal sequences.
pub open spec fn esc_free(s: Seq<char>) -> bool {
    forall|i: int| 0 <= i < s.len() ==> s[i] != '\u{1b}'
}

/// The number of escape characters in `s`.
pub open spec fn esc_count(s: Seq<char>) -> nat
    decreases s.len(),
{
    if s.len() == 0 {
        0
    } else {
        esc_count(s.drop_last()) + if s.last() == '\u{1b}' {
            1nat
        } else {
            0nat
        }
    }
}

pub proof fn lemma_esc_count_concat(a: Seq<char>, b: Seq<char>)
    ensures
        esc_count(a + b) == esc_count(a) + esc_count(b),
    decreases b.len(),
{
    if b.len() == 0 {
        assert(a + b =~= a);
    } else {
        lemma_esc_count_concat(a, b.drop_last());
        assert((a + b).drop_last() =~= a + b.drop_last());
        assert((a + b).last() == b.last());
    }
}

/// A string is escape-free exactly when it holds no escape character.
pub proof fn lemma_esc_free_count(s: Seq<char>)
    ensures
        esc_free(s) <==> esc_count(s) == 0,
    decreases s.len(),
{
    if s.len() > 0 {
        lemma_esc_free_count(s.drop_last());
        assert(forall|i: int| 0 <= i < s.len() - 1 ==> #[trigger] s.drop_last()[i] == s[i]);
        if esc_free(s.drop_last()) && s.last() != '\u{1b}' {
            assert forall|i: int| 0 <= i < s.len() implies s[i] != '\u{1b}' by {
                if i < s.len() - 1 {
                    assert(s[i] == s.drop_last()[i]);
                }
            }
        }
    }
}

pub proof fn lemma_esc_free_concat(a: Seq<char>, b: Seq<char>)
    requires
        esc_free(a),
        esc_free(b),
    ensures
        esc_free(a + b),
{
    assert forall|i: int| 0 <= i < (a + b).len() implies (a + b)[i] != '\u{1b}' by {
        if i < a.len() {
            assert((a + b)[i] == a[i]);
        } else {
            assert((a + b)[i] == b[i - a.len()]);
        }
    }
}

pub proof fn lemma_esc_free_pad(s: Seq<char>, w: int)
    requires
        esc_free(s),
    ensures
        esc_free(pad_min(s, w)),
{
    lemma_spaces_all_blank(w - s.len());
    lemma_esc_free_concat(s, spaces(w - s.len()));
}

pub proof fn lemma_esc_free_replace_cr(s: Seq<char>)
    requires
        esc_free(s),
    ensures
        esc_free(replace_cr(s)),
{
}

} // verus!
