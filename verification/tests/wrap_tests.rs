use gtasksprint::wrap::wrap_block;

#[test]
fn short_title_is_one_bulleted_line() {
    let lines = wrap_block("Buy milk", 34, "• ", "   ");
    assert_eq!(lines, vec![String::from("• Buy milk")]);
}

#[test]
fn long_title_wraps_under_the_width() {
    let lines = wrap_block(
        "Write the quarterly report and send it to the whole team",
        34,
        "• ",
        "   ",
    );
    assert!(lines.len() >= 2);
    for line in &lines {
        assert!(line.chars().count() <= 34);
    }
    assert!(lines[0].starts_with("• "));
    assert!(lines[1].starts_with("   "));
    assert!(!lines[1].starts_with("• "));
}

#[test]
fn wrapping_is_idempotent() {
    let text = "the quick brown fox jumps over the lazy dog";
    let once = wrap_block(text, 12, "", "");
    let joined = once.join(" ");
    let twice = wrap_block(&joined, 12, "", "");
    assert_eq!(once, twice);
}

#[test]
fn wrapping_splits_rather_than_echoing() {
    let lines = wrap_block("aa bb", 2, "", "");
    assert_eq!(lines, vec![String::from("aa"), String::from("bb")]);
}

#[test]
fn empty_text_yields_one_bare_prefix_line() {
    // The fixed policy for an absent or empty title: one line holding just
    // the bullet prefix, so the task still shows as a row in the box.
    let lines = wrap_block("", 34, "• ", "   ");
    assert_eq!(lines, vec![String::from("• ")]);
}

#[test]
fn note_prefixes_indent_under_the_bullet() {
    let lines = wrap_block("call the plumber about the kitchen sink", 20, "  • ", "     ");
    assert!(lines.len() >= 2);
    assert!(lines[0].starts_with("  • "));
    assert!(lines[1].starts_with("     "));
    for line in &lines {
        assert!(line.chars().count() <= 20);
    }
}
