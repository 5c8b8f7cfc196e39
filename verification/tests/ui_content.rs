//! Menu and help content.

use benchvolt_poc::ui_content::{
    line_count, HELP_LINE_COUNT, HELP_MAX_SCROLL, HELP_TEXT, HELP_VISIBLE_LINES, MAIN_MENU_ITEMS,
};

#[test]
fn menu_counts_and_help_bounds_come_from_the_painted_content() {
    assert_eq!(MAIN_MENU_ITEMS.len(), 5);
    assert_eq!(HELP_TEXT.lines().count(), usize::from(HELP_LINE_COUNT));
    assert_eq!(HELP_MAX_SCROLL, 17);
    assert_eq!(HELP_MAX_SCROLL + HELP_VISIBLE_LINES, HELP_LINE_COUNT);
}

#[test]
fn lines_are_one_more_than_their_feeds() {
    assert_eq!(line_count(HELP_TEXT.as_bytes()), HELP_LINE_COUNT);
    assert_eq!(line_count(b""), 1);
    assert_eq!(line_count(b"a\n\nb"), 3);
}
