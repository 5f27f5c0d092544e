//! Lowercased, diacritics-free character folding.
//!
//! Each character whose code point falls inside the folding table's range is
//! replaced by the lowercased, diacritics-free character the table records
//! for it; every other character is left unchanged. The per-character fold
//! never fails and never changes a string's character count. A separate
//! entry point first rewrites the input into Unicode Normalization Form C,
//! so that decomposed base-plus-combining-mark pairs become precomposed
//! characters the table can fold.
use unicode_normalization::UnicodeNormalization;
use vstd::prelude::*;
use vstd::string::StrSliceExecFns;

pub mod table;

verus! {

/// The fold of a single character: the table's slot when the code point is
/// inside the table's range, the character itself otherwise.
pub open spec fn fold_char(c: char) -> char {
    if (c as int) < table::LEN as int {
        table::entry(c)
    } else {
        c
    }
}

/// Return the lowercased, diacritics-free version of the character when the
/// folding table records one, and the character unchanged otherwise.
pub fn lower_lay_char(c: char) -> (r: char)
    ensures
        r == fold_char(c),
{
    if (c as u32) < table::LEN as u32 {
        table::lookup(c)
    } else {
        c
    }
}

/// The fold of a whole character sequence: every character folded through
/// [`fold_char`], in order, so the result always has the same length.
pub open spec fn fold_string(s: Seq<char>) -> Seq<char> {
    s.map_values(|c: char| fold_char(c))
}

/// Relies on `String::push`: appends the given character to the end of
/// the string.
#[verifier::external_body]
fn push_char(s: &mut String, c: char)
    ensures
        final(s)@ == old(s)@.push(c),
{
    s.push(c)
}

/// Replace every character of the string with its lowercased,
/// diacritics-free equivalent whenever the folding table records one. The
/// result has exactly as many characters as the input (it may be shorter
/// in bytes, never longer in characters).
///
/// No Unicode normalization is performed: a decomposed combining mark is a
/// character of its own, outside the table's range, and passes through
/// unchanged. Callers must hand in text that is already canonically
/// composed, or use [`normalized_lower_lay_string`].
pub fn lower_lay_string(s: &str) -> (r: String)
    ensures
        r@ == fold_string(s@),
        r@.len() == s@.len(),
{
    let n: usize = s.unicode_len();
    let mut out = String::new();
    let mut i: usize = 0;
    while i < n
        invariant
            n == s@.len(),
            i <= n,
            out@ == fold_string(s@.take(i as int)),
        decreases n - i,
    {
        let c = s.get_char(i);
        let f = lower_lay_char(c);
        push_char(&mut out, f);
        proof {
            assert(fold_string(s@.take(i + 1)) =~= fold_string(
                s@.take(i as int),
            ).push(fold_char(s@[i as int])));
        }
        i = i + 1;
    }
    proof {
        assert(s@.take(n as int) =~= s@);
    }
    out
}

/// Law: the table is closed under folding, and above it the fold is the
/// identity. For a character inside the table's range the fold stays
/// inside the range and is a value present in the table: its own slot
/// holds it. For a character at the table's length or beyond, the fold
/// returns the character unchanged.
pub proof fn lemma_fold_char_range(c: char)
    ensures
        (c as int) < table::LEN as int ==> (fold_char(c) as int) < table::LEN as int
            && table::entry(fold_char(c)) == fold_char(c),
        (c as int) >= table::LEN as int ==> fold_char(c) == c,
{
}

/// Law: folding one character is idempotent: a folded character folds to
/// itself.
pub proof fn lemma_fold_char_idempotent(c: char)
    ensures
        fold_char(fold_char(c)) == fold_char(c),
{
}

/// Law: folding preserves the character count of every string.
pub proof fn lemma_fold_string_len(s: Seq<char>)
    ensures
        fold_string(s).len() == s.len(),
{
}

/// Law: folding a string is idempotent: applying the fold to its own
/// output gives that output back unchanged.
pub proof fn lemma_fold_string_idempotent(s: Seq<char>)
    ensures
        fold_string(fold_string(s)) == fold_string(s),
{
    assert forall|i: int| 0 <= i < s.len() implies fold_string(fold_string(s))[i] == fold_string(
        s,
    )[i] by {
        lemma_fold_char_idempotent(s[i]);
    }
    assert(fold_string(fold_string(s)) =~= fold_string(s));
}

/// The character sequence that canonical composition (Unicode
/// Normalization Form C) produces for `s`: combining marks merge into
/// precomposed characters wherever a composed form exists. The exact
/// sequence is fixed by the Unicode normalization algorithm and depends on
/// the input characters alone; it is named here rather than spelled out.
pub uninterp spec fn nfc_of(s: Seq<char>) -> Seq<char>;

/// Relies on `unicode_normalization::UnicodeNormalization::nfc`: rewrites
/// the characters into Unicode Normalization Form C, a pure function of
/// the input characters.
#[verifier::external_body]
fn nfc_string(s: &str) -> (r: String)
    ensures
        r@ == nfc_of(s@),
{
    s.nfc().collect()
}

/// Rewrite the string into Unicode Normalization Form C, then replace
/// every character of the composed text with its lowercased,
/// diacritics-free equivalent whenever the folding table records one.
///
/// The result has exactly as many characters as the normalized
/// intermediate text. That may be fewer than the input had: composition
/// can merge a base character and a following combining mark into one
/// precomposed character, which the table then folds to its base letter.
pub fn normalized_lower_lay_string(s: &str) -> (r: String)
    ensures
        r@ == fold_string(nfc_of(s@)),
        r@.len() == nfc_of(s@).len(),
{
    let composed = nfc_string(s);
    lower_lay_string(composed.as_str())
}

} // verus!
