//! Menu and help content shared by the reducer and the painter.

use vstd::prelude::*;

verus! {

pub const MAIN_MENU_ITEMS: [&'static str; 5] = ["DC Power", "AWG", "Settings", "System", "Help"];

pub const MAIN_MENU_ITEM_COUNT: u8 = 5;

pub const SETTINGS_ITEM_COUNT: u8 = 5;

pub const PROFILE_ITEM_COUNT: u8 = 4;

pub const AWG_ITEM_COUNT: u8 = 8;

pub const HELP_VISIBLE_LINES: u8 = 7;

pub const HELP_SCROLL_STEP: u8 = 5;

pub const HELP_TEXT: &'static str = "MAIN MENU\nPower - five DC outputs\nAWG - CH4 / CH5 waveforms\nSettings - save / restore\nSystem - version and status\nNAVIGATION\nLong press - go back\nClick - move focus\nTurn - select or edit\nPOWER\nOverview shows output status.\nClick to focus, turn to toggle.\nWith no focus, turn screens.\nClick through Output, Voltage,\nCV/CC, and Current Limit.\nTurn to edit, click to finish.\nCV / CC\nCH4 and CH5 support CC.\nSet CC and Current Limit.\nAWG\nCH4 or CH5, up to 120 Hz.\nSquare includes duty cycle.\nSet Low, High, then Start.\nLoad: RMS A and average W.";

/// Number of lines in `HELP_TEXT`.
pub const HELP_LINE_COUNT: u8 = 24;

/// Largest first visible line of the help screen.
pub const HELP_MAX_SCROLL: u8 = HELP_LINE_COUNT - HELP_VISIBLE_LINES;

/// Number of line feeds in `bytes`.
pub open spec fn line_feeds(bytes: Seq<u8>) -> nat
    decreases bytes.len(),
{
    if bytes.len() == 0 {
        0
    } else {
        line_feeds(bytes.drop_last()) + if bytes.last() == 10u8 {
            1nat
        } else {
            0nat
        }
    }
}

/// Counts the lines of a text: one more than its line feeds.
pub fn line_count(bytes: &[u8]) -> (lines: u8)
    requires
        line_feeds(bytes@) < 255,
    ensures
        lines as nat == line_feeds(bytes@) + 1,
{
    let mut lines: u8 = 1;
    let mut index: usize = 0;
    while index < bytes.len()
        invariant
            index <= bytes.len(),
            line_feeds(bytes@) < 255,
            lines as nat == line_feeds(bytes@.take(index as int)) + 1,
        decreases bytes.len() - index,
    {
        proof {
            let longer = bytes@.take(index as int + 1);
            assert(longer.drop_last() =~= bytes@.take(index as int));
            lemma_line_feeds_grow(bytes@, index as int + 1);
        }
        if bytes[index] == 10u8 {
            lines = lines + 1;
        }
        index = index + 1;
    }
    assert(bytes@.take(index as int) =~= bytes@);
    lines
}

/// A prefix has no more line feeds than the whole.
proof fn lemma_line_feeds_grow(bytes: Seq<u8>, end: int)
    requires
        0 <= end <= bytes.len(),
    ensures
        line_feeds(bytes.take(end)) <= line_feeds(bytes),
    decreases bytes.len() - end,
{
    if end < bytes.len() {
        lemma_line_feeds_grow(bytes, end + 1);
        assert(bytes.take(end + 1).drop_last() =~= bytes.take(end));
    } else {
        assert(bytes.take(end) =~= bytes);
    }
}

} // verus!
