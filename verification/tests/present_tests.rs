use bender_config::present::{compare_banner, section_label_lines, wrap};

#[test]
fn wrap_exact_multiple() {
    let lines = wrap("abcdef", 2);
    assert_eq!(lines, vec!["ab", "cd", "ef"]);
    // the concatenation is the original text, every line exactly the width
    assert_eq!(lines.concat(), "abcdef");
}

#[test]
fn wrap_with_remainder() {
    let lines = wrap("abcde", 2);
    assert_eq!(lines, vec!["ab", "cd", "e"]);
    assert_eq!(lines.concat(), "abcde");
    for l in &lines {
        assert!(l.chars().count() <= 2);
    }
}

#[test]
fn wrap_empty_has_no_lines() {
    let lines = wrap("", 4);
    assert!(lines.is_empty());
}

#[test]
fn wrap_never_tears_a_multibyte_character() {
    let lines = wrap("äöü", 2);
    assert_eq!(lines, vec!["äö", "ü"]);
    assert_eq!(lines.concat(), "äöü");
}

#[test]
fn banner_sides_fit_half_width() {
    let width = 20usize;
    let sep = " != ";
    let half = (width - sep.chars().count()) / 2;
    let b = compare_banner("ab", "a value far too long for one side", width, sep);
    // both sides are shaped to exactly half the remaining width
    assert_eq!(b.chars().count(), half + sep.chars().count() + half);
    assert_eq!(b, "ab       != a val...");
}

#[test]
fn banner_pads_short_sides() {
    let b = compare_banner("x", "y", 10, "=");
    assert_eq!(b, "x   =y   ");
}

#[test]
fn section_label_is_rule_message_rule() {
    let lines = section_label_lines("ab", 10);
    assert_eq!(lines, vec!["----------", "    ab    ", "----------"]);
}

#[test]
fn section_label_odd_padding() {
    let lines = section_label_lines("abc", 10);
    assert_eq!(lines[1], "   abc    ");
}
