use vstd::prelude::*;

use crate::config::Config;

verus! {

/// Character count above which a title is shortened for display.
pub const TITLE_LIMIT: usize = 30;

/// Characters of a long title that are kept before the ellipsis.
pub const TITLE_KEEP: usize = 27;

/// Character count above which an artist name is shortened for display.
pub const ARTIST_LIMIT: usize = 35;

/// Characters of a long artist name that are kept before the ellipsis.
pub const ARTIST_KEEP: usize = 32;

/// What a string looks like on screen, given a truncation threshold: shown
/// verbatim when it is short enough, else cut at the fixed length with an
/// ellipsis appended.
pub open spec fn displayed(s: Seq<char>, limit: int, keep: int) -> Seq<char> {
    if s.len() > limit {
        s.subrange(0, keep) + "..."@
    } else {
        s
    }
}

/// Shortens a string for display: a string of more than `limit` characters
/// is cut to its first `keep` characters with an ellipsis appended; a
/// shorter one is returned verbatim.
pub fn truncate_with_ellipsis(s: &str, limit: usize, keep: usize) -> (r: String)
    requires
        keep <= limit,
    ensures
        r@ == displayed(s@, limit as int, keep as int),
{
    let n = s.unicode_len();
    if n > limit {
        String::from_str(s.substring_char(0, keep)).concat("...")
    } else {
        String::from_str(s)
    }
}

/// The title as it is drawn.
pub fn display_title(title: &str) -> (r: String)
    ensures
        r@ == displayed(title@, TITLE_LIMIT as int, TITLE_KEEP as int),
{
    truncate_with_ellipsis(title, TITLE_LIMIT, TITLE_KEEP)
}

/// The artist name as it is drawn.
pub fn display_artist(artist: &str) -> (r: String)
    ensures
        r@ == displayed(artist@, ARTIST_LIMIT as int, ARTIST_KEEP as int),
{
    truncate_with_ellipsis(artist, ARTIST_LIMIT, ARTIST_KEEP)
}

/// Side of the square theme-toggle button, in pixels.
pub const BUTTON_SIZE: i32 = 40;

/// Distance of the toggle button from the window's bottom-right corner.
pub const BUTTON_MARGIN: i32 = 15;

/// An axis-aligned rectangle in window coordinates.
#[derive(Clone, Copy, PartialEq, Eq, Structural, Debug)]
pub struct Rect {
    pub x: i32,
    pub y: i32,
    pub w: i32,
    pub h: i32,
}

/// Where the theme-toggle button sits: a fixed-size square inset from the
/// window's bottom-right corner.
pub fn toggle_button_rect(config: &Config) -> (r: Rect)
    requires
        config.window_width as int - BUTTON_SIZE as int - BUTTON_MARGIN as int
            >= i32::MIN as int,
        config.window_height as int - BUTTON_SIZE as int - BUTTON_MARGIN as int
            >= i32::MIN as int,
    ensures
        r.x == config.window_width as int - BUTTON_SIZE as int - BUTTON_MARGIN as int,
        r.y == config.window_height as int - BUTTON_SIZE as int - BUTTON_MARGIN as int,
        r.w == BUTTON_SIZE,
        r.h == BUTTON_SIZE,
{
    Rect {
        x: config.window_width - BUTTON_SIZE - BUTTON_MARGIN,
        y: config.window_height - BUTTON_SIZE - BUTTON_MARGIN,
        w: BUTTON_SIZE,
        h: BUTTON_SIZE,
    }
}

/// Whether a point lies in a rectangle, both edges included — the test the
/// hover and toggle input use.
pub fn point_in_rect(px: i32, py: i32, r: &Rect) -> (inside: bool)
    ensures
        inside == (r.x <= px <= r.x as int + r.w as int && r.y <= py <= r.y as int
            + r.h as int),
{
    (px as i64) >= (r.x as i64) && (px as i64) <= (r.x as i64) + (r.w as i64) && (py as i64)
        >= (r.y as i64) && (py as i64) <= (r.y as i64) + (r.h as i64)
}

} // verus!
