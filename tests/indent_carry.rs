use datathing::indent::{carry_indent, white_space};

fn chars(s: &str) -> Vec<char> {
    s.chars().collect()
}

fn text(v: &[char]) -> String {
    v.iter().collect()
}

#[test]
fn break_after_indented_line_repeats_its_indent() {
    let mut code = chars("def f():\n    x = 1\n");
    let cursor = code.len();
    let moved = carry_indent(&mut code, cursor, true);
    assert_eq!(text(&code), "def f():\n    x = 1\n    ");
    assert_eq!(moved, cursor + 4);
}

#[test]
fn break_in_the_middle_inserts_at_the_cursor() {
    let mut code = chars("a\n\tb\nc");
    let moved = carry_indent(&mut code, 5, true);
    assert_eq!(text(&code), "a\n\tb\n\tc");
    assert_eq!(moved, 6);
}

#[test]
fn break_on_first_line_carries_nothing() {
    let mut code = chars("    x\n");
    let moved = carry_indent(&mut code, 6, true);
    assert_eq!(text(&code), "    x\n");
    assert_eq!(moved, 6);
}

#[test]
fn break_at_end_of_row_carries_nothing() {
    let mut code = chars("a\n  b\n");
    let moved = carry_indent(&mut code, 6, false);
    assert_eq!(text(&code), "a\n  b\n");
    assert_eq!(moved, 6);
}

#[test]
fn cursor_out_of_range_changes_nothing() {
    let mut code = chars("a\n  b\n");
    assert_eq!(carry_indent(&mut code, 0, true), 0);
    assert_eq!(carry_indent(&mut code, 99, true), 99);
    assert_eq!(text(&code), "a\n  b\n");
}

#[test]
fn blank_previous_line_keeps_only_spaces_and_tabs() {
    let mut code = chars("a\n \u{3000}\t\n");
    let cursor = code.len();
    let moved = carry_indent(&mut code, cursor, true);
    assert_eq!(text(&code), "a\n \u{3000}\t\n \t");
    assert_eq!(moved, cursor + 2);
}

#[test]
fn white_space_set() {
    for c in [' ', '\t', '\n', '\r', '\u{b}', '\u{c}', '\u{85}', '\u{a0}', '\u{2003}', '\u{3000}'] {
        assert!(white_space(c), "{:?}", c);
        assert!(c.is_whitespace());
    }
    for c in ['a', '_', '\u{200b}', '\u{feff}', '0'] {
        assert!(!white_space(c), "{:?}", c);
    }
}
