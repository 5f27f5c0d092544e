use secular::lower_lay_char;
use secular::lower_lay_string;
use secular::normalized_lower_lay_string;

#[test]
fn test_lower_lay_char() {
    let s = "Comunica\u{e7}\u{f5}es"; // normalized string (length=12)
    let chars: Vec<char> = s.chars().collect();
    assert_eq!(chars.len(), 12);
    assert_eq!(chars[0], 'C');
    assert_eq!(lower_lay_char(chars[0]), 'c');
    assert_eq!(chars[8], '\u{e7}');
    assert_eq!(lower_lay_char(chars[8]), 'c');
}

#[test]
fn test_normalized_lower_lay_string() {
    let s = "Comunicac\u{327}o\u{303}es"; // unnormalized string (length=14)
    assert_eq!(s.chars().count(), 14);
    let s = normalized_lower_lay_string(s);
    assert_eq!(s.chars().count(), 12);
    assert_eq!(s, "comunicacoes");
}

#[test]
fn test_lower_lay_char_identity_outside_table() {
    // The table covers code points 0..256: the character at exactly the
    // table's length boundary and the one beyond it both fall back to
    // the identity, while the last in-table slot still folds.
    assert_eq!(lower_lay_char('\u{ff}'), 'y');
    assert_eq!(lower_lay_char('\u{100}'), '\u{100}');
    assert_eq!(lower_lay_char('\u{101}'), '\u{101}');
    assert_eq!(lower_lay_char('\u{4e2d}'), '\u{4e2d}');
}

#[test]
fn test_lower_lay_char_unfolded_slots() {
    // Characters whose slot records no folding come back unchanged.
    assert_eq!(lower_lay_char('a'), 'a');
    assert_eq!(lower_lay_char('0'), '0');
    assert_eq!(lower_lay_char('!'), '!');
    assert_eq!(lower_lay_char(' '), ' ');
    assert_eq!(lower_lay_char('\u{df}'), '\u{df}');
}

#[test]
fn test_lower_lay_string_exact() {
    let folded = lower_lay_string("\u{c0}B\u{c9}\u{ce}\u{d5}\u{dc}");
    assert_eq!(folded, "abeiou");
}

#[test]
fn test_lower_lay_string_preserves_char_count() {
    // The non-normalizing fold keeps the character count: combining
    // marks of a decomposed input are characters of their own, outside
    // the table, and pass through unfolded.
    let s = "Comunicac\u{327}o\u{303}es";
    assert_eq!(s.chars().count(), 14);
    let folded = lower_lay_string(s);
    assert_eq!(folded.chars().count(), 14);
    assert_eq!(folded, "comunicac\u{327}o\u{303}es");
}

#[test]
fn test_lower_lay_string_idempotent() {
    let once = lower_lay_string("Comunica\u{e7}\u{f5}es \u{c6}neas 42!");
    let twice = lower_lay_string(&once);
    assert_eq!(twice, once);
}

#[test]
fn test_lower_lay_string_empty() {
    assert_eq!(lower_lay_string(""), "");
    assert_eq!(normalized_lower_lay_string(""), "");
}

#[test]
fn test_normalized_on_precomposed_input() {
    // Already-composed text is unchanged by normalization, so only the
    // fold applies.
    let s = "Comunica\u{e7}\u{f5}es";
    assert_eq!(s.chars().count(), 12);
    let folded = normalized_lower_lay_string(s);
    assert_eq!(folded.chars().count(), 12);
    assert_eq!(folded, "comunicacoes");
}
