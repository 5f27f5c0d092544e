//! The folding table: one slot for every code point below [`LEN`], holding
//! the lowercased, diacritics-free character recorded for it.
//!
//! The table is a fixed data asset, not logic: each slot holds the simple
//! lowercase of its character with canonically decomposable diacritics
//! removed, and characters with no such folding occupy their own slot.
use vstd::prelude::*;

verus! {

/// Number of table slots: the table covers code points 0 up to
/// (not including) `LEN`.
pub const LEN: usize = 256;

/// The table slot for character `c`: the folded form recorded for `c`'s
/// code point. Characters whose code point carries no folding (controls,
/// digits, punctuation, lowercase letters without a decomposable
/// diacritic) occupy their own slot, so the default arm returns `c`
/// itself. Meaningful for characters below [`LEN`]; the bounds check and
/// the identity fallback above the table live in `crate::fold_char`.
pub open spec fn entry(c: char) -> char {
    match c {
        'A' => 'a',
        'B' => 'b',
        'C' => 'c',
        'D' => 'd',
        'E' => 'e',
        'F' => 'f',
        'G' => 'g',
        'H' => 'h',
        'I' => 'i',
        'J' => 'j',
        'K' => 'k',
        'L' => 'l',
        'M' => 'm',
        'N' => 'n',
        'O' => 'o',
        'P' => 'p',
        'Q' => 'q',
        'R' => 'r',
        'S' => 's',
        'T' => 't',
        'U' => 'u',
        'V' => 'v',
        'W' => 'w',
        'X' => 'x',
        'Y' => 'y',
        'Z' => 'z',
        '\u{c0}' => 'a',
        '\u{c1}' => 'a',
        '\u{c2}' => 'a',
        '\u{c3}' => 'a',
        '\u{c4}' => 'a',
        '\u{c5}' => 'a',
        '\u{c6}' => '\u{e6}',
        '\u{c7}' => 'c',
        '\u{c8}' => 'e',
        '\u{c9}' => 'e',
        '\u{ca}' => 'e',
        '\u{cb}' => 'e',
        '\u{cc}' => 'i',
        '\u{cd}' => 'i',
        '\u{ce}' => 'i',
        '\u{cf}' => 'i',
        '\u{d0}' => '\u{f0}',
        '\u{d1}' => 'n',
        '\u{d2}' => 'o',
        '\u{d3}' => 'o',
        '\u{d4}' => 'o',
        '\u{d5}' => 'o',
        '\u{d6}' => 'o',
        '\u{d8}' => '\u{f8}',
        '\u{d9}' => 'u',
        '\u{da}' => 'u',
        '\u{db}' => 'u',
        '\u{dc}' => 'u',
        '\u{dd}' => 'y',
        '\u{de}' => '\u{fe}',
        '\u{e0}' => 'a',
        '\u{e1}' => 'a',
        '\u{e2}' => 'a',
        '\u{e3}' => 'a',
        '\u{e4}' => 'a',
        '\u{e5}' => 'a',
        '\u{e7}' => 'c',
        '\u{e8}' => 'e',
        '\u{e9}' => 'e',
        '\u{ea}' => 'e',
        '\u{eb}' => 'e',
        '\u{ec}' => 'i',
        '\u{ed}' => 'i',
        '\u{ee}' => 'i',
        '\u{ef}' => 'i',
        '\u{f1}' => 'n',
        '\u{f2}' => 'o',
        '\u{f3}' => 'o',
        '\u{f4}' => 'o',
        '\u{f5}' => 'o',
        '\u{f6}' => 'o',
        '\u{f9}' => 'u',
        '\u{fa}' => 'u',
        '\u{fb}' => 'u',
        '\u{fc}' => 'u',
        '\u{fd}' => 'y',
        '\u{ff}' => 'y',
        _ => c,
    }
}

/// Bounds-checked table access: the executable counterpart of [`entry`].
pub fn lookup(c: char) -> (r: char)
    ensures
        r == entry(c),
{
    match c {
        'A' => 'a',
        'B' => 'b',
        'C' => 'c',
        'D' => 'd',
        'E' => 'e',
        'F' => 'f',
        'G' => 'g',
        'H' => 'h',
        'I' => 'i',
        'J' => 'j',
        'K' => 'k',
        'L' => 'l',
        'M' => 'm',
        'N' => 'n',
        'O' => 'o',
        'P' => 'p',
        'Q' => 'q',
        'R' => 'r',
        'S' => 's',
        'T' => 't',
        'U' => 'u',
        'V' => 'v',
        'W' => 'w',
        'X' => 'x',
        'Y' => 'y',
        'Z' => 'z',
        '\u{c0}' => 'a',
        '\u{c1}' => 'a',
        '\u{c2}' => 'a',
        '\u{c3}' => 'a',
        '\u{c4}' => 'a',
        '\u{c5}' => 'a',
        '\u{c6}' => '\u{e6}',
        '\u{c7}' => 'c',
        '\u{c8}' => 'e',
        '\u{c9}' => 'e',
        '\u{ca}' => 'e',
        '\u{cb}' => 'e',
        '\u{cc}' => 'i',
        '\u{cd}' => 'i',
        '\u{ce}' => 'i',
        '\u{cf}' => 'i',
        '\u{d0}' => '\u{f0}',
        '\u{d1}' => 'n',
        '\u{d2}' => 'o',
        '\u{d3}' => 'o',
        '\u{d4}' => 'o',
        '\u{d5}' => 'o',
        '\u{d6}' => 'o',
        '\u{d8}' => '\u{f8}',
        '\u{d9}' => 'u',
        '\u{da}' => 'u',
        '\u{db}' => 'u',
        '\u{dc}' => 'u',
        '\u{dd}' => 'y',
        '\u{de}' => '\u{fe}',
        '\u{e0}' => 'a',
        '\u{e1}' => 'a',
        '\u{e2}' => 'a',
        '\u{e3}' => 'a',
        '\u{e4}' => 'a',
        '\u{e5}' => 'a',
        '\u{e7}' => 'c',
        '\u{e8}' => 'e',
        '\u{e9}' => 'e',
        '\u{ea}' => 'e',
        '\u{eb}' => 'e',
        '\u{ec}' => 'i',
        '\u{ed}' => 'i',
        '\u{ee}' => 'i',
        '\u{ef}' => 'i',
        '\u{f1}' => 'n',
        '\u{f2}' => 'o',
        '\u{f3}' => 'o',
        '\u{f4}' => 'o',
        '\u{f5}' => 'o',
        '\u{f6}' => 'o',
        '\u{f9}' => 'u',
        '\u{fa}' => 'u',
        '\u{fb}' => 'u',
        '\u{fc}' => 'u',
        '\u{fd}' => 'y',
        '\u{ff}' => 'y',
        _ => c,
    }
}

} // verus!
