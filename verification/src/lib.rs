use vstd::prelude::*;

mod config;
mod display;
mod fetch;
mod frame;
mod mailbox;
mod now_playing;
mod theme;

pub use config::Config;
pub use config::DEFAULT_DARK_MODE;
pub use config::DEFAULT_UPDATE_INTERVAL_MS;
pub use config::DEFAULT_WINDOW_HEIGHT;
pub use config::DEFAULT_WINDOW_WIDTH;
pub use display::ARTIST_KEEP;
pub use display::ARTIST_LIMIT;
pub use display::BUTTON_MARGIN;
pub use display::BUTTON_SIZE;
pub use display::Rect;
pub use display::TITLE_KEEP;
pub use display::TITLE_LIMIT;
pub use display::display_artist;
pub use display::display_title;
pub use display::displayed;
pub use display::point_in_rect;
pub use display::toggle_button_rect;
pub use display::truncate_with_ellipsis;
pub use fetch::temp_art_file_name;
pub use frame::ButtonTracker;
pub use frame::Cache;
pub use frame::ChangeDecision;
pub use frame::FrameState;
pub use frame::FrameView;
pub use frame::TrackView;
pub use frame::apply_poll;
pub use frame::art_should_refetch;
pub use frame::begin_adoption;
pub use frame::complete_adoption;
pub use frame::detect_change;
pub use frame::handle_toggle_input;
pub use frame::lemma_press_fires_once_per_hold;
pub use frame::poll_due;
pub use frame::press_edge;
pub use frame::text_changed;
pub use mailbox::Mailbox;
pub use mailbox::lemma_take_sees_last_publish;
pub use mailbox::opt_view;
pub use mailbox::publish_step;
pub use mailbox::slot_after_publishes;
pub use now_playing::NowPlayingInfo;
pub use now_playing::is_space;
pub use now_playing::trim_whitespace;
pub use theme::Palette;
pub use theme::Rgba;
pub use theme::ThemeState;
pub use theme::dark_palette;
pub use theme::lemma_toggle_swaps_palette;
pub use theme::light_palette;
pub use theme::palette_of;
pub use theme::rgb;

verus! {

} // verus!
