use tuner::Config;
use tuner::FrameState;
use tuner::Mailbox;
use tuner::NowPlayingInfo;
use tuner::ThemeState;
use tuner::apply_poll;
use tuner::begin_adoption;
use tuner::complete_adoption;
use tuner::detect_change;
use tuner::display_artist;
use tuner::display_title;
use tuner::handle_toggle_input;
use tuner::point_in_rect;
use tuner::poll_due;
use tuner::temp_art_file_name;
use tuner::toggle_button_rect;
use tuner::trim_whitespace;
use tuner::ButtonTracker;

fn info(artist: &str, title: &str, art: &str) -> NowPlayingInfo {
    NowPlayingInfo {
        artist: artist.to_string(),
        title: title.to_string(),
        art_reference: art.to_string(),
    }
}

#[test]
fn config_defaults() {
    let c = Config::default();
    assert_eq!(c.dark_mode, true);
    assert_eq!(c.window_width, 600);
    assert_eq!(c.window_height, 200);
    assert_eq!(c.update_interval_ms, 2000);
}

#[test]
fn config_overrides_fill_gaps() {
    let c = Config::from_overrides(Some(false), None, Some(480), None);
    assert_eq!(c.dark_mode, false);
    assert_eq!(c.window_width, 600);
    assert_eq!(c.window_height, 480);
    assert_eq!(c.update_interval_ms, 2000);
}

#[test]
fn change_detector_flags_art_iff_new_and_nonempty() {
    let cache_state = FrameState::new(Config::default());
    let mut cache = cache_state.cache;
    cache.artist = "A".to_string();
    cache.title = "T".to_string();
    cache.art_reference = "http://x/old.jpg".to_string();

    // Different, non-empty reference: refetch.
    let d = detect_change(&info("A", "T", "http://x/new.jpg"), &cache);
    assert!(!d.text_changed);
    assert!(d.art_should_refetch);

    // Same reference: no refetch.
    let d = detect_change(&info("A", "T", "http://x/old.jpg"), &cache);
    assert!(!d.art_should_refetch);

    // Different but empty reference: no refetch.
    let d = detect_change(&info("A", "T", ""), &cache);
    assert!(!d.art_should_refetch);

    // Text comparison is independent of art.
    let d = detect_change(&info("A", "Other", "http://x/old.jpg"), &cache);
    assert!(d.text_changed);
    let d = detect_change(&info("Other", "T", "http://x/old.jpg"), &cache);
    assert!(d.text_changed);
}

#[test]
fn mailbox_take_returns_last_publish_and_clears() {
    let mut m = Mailbox::empty();
    m.publish(Some("/tmp/a.jpg".to_string()));
    m.publish(Some("/tmp/b.jpg".to_string()));
    assert_eq!(m.take(), Some("/tmp/b.jpg".to_string()));
    assert_eq!(m.take(), None);
}

#[test]
fn mailbox_take_on_empty_is_noop() {
    let mut m = Mailbox::empty();
    assert_eq!(m.take(), None);
    assert_eq!(m.take(), None);
}

#[test]
fn mailbox_publish_none_clears() {
    let mut m = Mailbox::empty();
    m.publish(Some("/tmp/a.jpg".to_string()));
    m.publish(None);
    assert_eq!(m.take(), None);
}

#[test]
fn adoption_with_empty_mailbox_changes_nothing() {
    let mut s = FrameState::new(Config::default());
    s.has_art = true;
    s.cache.title = "T".to_string();
    let mut m = Mailbox::empty();
    let pending = begin_adoption(&mut s, &mut m);
    assert_eq!(pending, None);
    assert!(s.has_art);
    assert_eq!(s.cache.title.as_str(), "T");
    assert_eq!(s.last_poll_ms, 0);
}

#[test]
fn adoption_releases_then_records_outcome() {
    let mut s = FrameState::new(Config::default());
    s.has_art = true;
    let mut m = Mailbox::empty();
    m.publish(Some("/tmp/art.jpg".to_string()));
    let pending = begin_adoption(&mut s, &mut m);
    assert_eq!(pending, Some("/tmp/art.jpg".to_string()));
    // The previous resource is released before the new one is constructed.
    assert!(!s.has_art);
    complete_adoption(&mut s, true);
    assert!(s.has_art);
}

#[test]
fn failed_construction_leaves_placeholder() {
    let mut s = FrameState::new(Config::default());
    s.has_art = true;
    let mut m = Mailbox::empty();
    m.publish(Some("/tmp/art.jpg".to_string()));
    let _ = begin_adoption(&mut s, &mut m);
    complete_adoption(&mut s, false);
    assert!(!s.has_art);
}

#[test]
fn poll_throttle_at_two_seconds() {
    let mut s = FrameState::new(Config::default());
    // First poll happens only once current time exceeds the interval.
    assert!(!poll_due(&s, 0));
    assert!(!poll_due(&s, 1999));
    assert!(!poll_due(&s, 2000));
    assert!(poll_due(&s, 2001));
    let _ = apply_poll(&mut s, info("A", "T", ""), 2001);
    assert_eq!(s.last_poll_ms, 2001);
    // Intervening ticks do not poll, whatever the frame rate.
    assert!(!poll_due(&s, 2500));
    assert!(!poll_due(&s, 4001));
    assert!(poll_due(&s, 4002));
}

#[test]
fn poll_clock_resets_even_on_failed_attempt() {
    let mut s = FrameState::new(Config::default());
    // Placeholder info stands for a failed provider query.
    let placeholder = NowPlayingInfo::from_provider_outputs(None, None, None);
    let fetch = apply_poll(&mut s, placeholder, 3000);
    assert_eq!(fetch, None);
    assert_eq!(s.last_poll_ms, 3000);
    assert_eq!(s.cache.artist.as_str(), "Unknown");
    assert_eq!(s.cache.title.as_str(), "No media playing");
}

#[test]
fn first_poll_updates_text_and_spawns_fetch() {
    let mut s = FrameState::new(Config::default());
    let fetch = apply_poll(
        &mut s,
        info("Radiohead", "Idioteque", "http://x/img.jpg"),
        2001,
    );
    assert_eq!(s.cache.artist.as_str(), "Radiohead");
    assert_eq!(s.cache.title.as_str(), "Idioteque");
    assert_eq!(s.cache.art_reference.as_str(), "http://x/img.jpg");
    assert_eq!(fetch, Some("http://x/img.jpg".to_string()));
}

#[test]
fn identical_second_poll_spawns_nothing() {
    let mut s = FrameState::new(Config::default());
    let _ = apply_poll(
        &mut s,
        info("Radiohead", "Idioteque", "http://x/img.jpg"),
        2001,
    );
    let fetch = apply_poll(
        &mut s,
        info("Radiohead", "Idioteque", "http://x/img.jpg"),
        4100,
    );
    assert_eq!(fetch, None);
    assert_eq!(s.cache.artist.as_str(), "Radiohead");
    assert_eq!(s.cache.title.as_str(), "Idioteque");
    assert_eq!(s.cache.art_reference.as_str(), "http://x/img.jpg");
}

#[test]
fn failed_fetch_publishes_no_value_and_next_frame_adopts_nothing() {
    let mut s = FrameState::new(Config::default());
    let _ = apply_poll(
        &mut s,
        info("Radiohead", "Idioteque", "http://x/img.jpg"),
        2001,
    );
    s.has_art = true;
    let mut m = Mailbox::empty();
    // The fetch task failed: it publishes no value rather than stale data.
    m.publish(None);
    let pending = begin_adoption(&mut s, &mut m);
    assert_eq!(pending, None);
    // The adoption step performs no resource change.
    assert!(s.has_art);
    assert_eq!(m.take(), None);
}

#[test]
fn theme_toggle_flips_once_per_press() {
    let mut theme = ThemeState::new(true);
    let mut button = ButtonTracker::new();

    // Button goes down with the pointer inside: one flip.
    let edge = button.observe(true);
    handle_toggle_input(&mut theme, true, edge);
    assert_eq!(theme.dark_mode, false);

    // Held on the following frames: no further flip.
    let edge = button.observe(true);
    handle_toggle_input(&mut theme, true, edge);
    assert_eq!(theme.dark_mode, false);
    let edge = button.observe(true);
    handle_toggle_input(&mut theme, true, edge);
    assert_eq!(theme.dark_mode, false);

    // Released, then pressed again: the next flip.
    let edge = button.observe(false);
    handle_toggle_input(&mut theme, true, edge);
    assert_eq!(theme.dark_mode, false);
    let edge = button.observe(true);
    handle_toggle_input(&mut theme, true, edge);
    assert_eq!(theme.dark_mode, true);
}

#[test]
fn theme_toggle_needs_pointer_inside() {
    let mut theme = ThemeState::new(true);
    handle_toggle_input(&mut theme, false, true);
    assert_eq!(theme.dark_mode, true);
    handle_toggle_input(&mut theme, true, false);
    assert_eq!(theme.dark_mode, true);
    handle_toggle_input(&mut theme, true, true);
    assert_eq!(theme.dark_mode, false);
}

#[test]
fn palette_after_toggle_is_the_other_variant() {
    let mut theme = ThemeState::new(true);
    let dark = theme.palette();
    theme.toggle();
    let light = theme.palette();
    assert_ne!(dark, light);
    assert_eq!(light, ThemeState::new(false).palette());
    theme.toggle();
    assert_eq!(theme.palette(), dark);
}

#[test]
fn palette_exact_values() {
    let dark = ThemeState::new(true).palette();
    assert_eq!((dark.bg_top.r, dark.bg_top.g, dark.bg_top.b, dark.bg_top.a), (30, 30, 35, 255));
    assert_eq!((dark.bg_bottom.r, dark.bg_bottom.g, dark.bg_bottom.b), (15, 15, 20));
    assert_eq!((dark.text_primary.r, dark.text_primary.g, dark.text_primary.b), (240, 240, 245));
    assert_eq!((dark.button_hover.r, dark.button_hover.g, dark.button_hover.b), (70, 70, 75));

    let light = ThemeState::new(false).palette();
    assert_eq!((light.bg_top.r, light.bg_top.g, light.bg_top.b, light.bg_top.a), (245, 245, 250, 255));
    assert_eq!((light.text_secondary.r, light.text_secondary.g, light.text_secondary.b), (80, 80, 90));
    assert_eq!((light.placeholder_icon.r, light.placeholder_icon.g, light.placeholder_icon.b), (150, 150, 160));
    assert_eq!((light.button_bg.r, light.button_bg.g, light.button_bg.b), (210, 210, 220));
}

#[test]
fn long_title_is_truncated_with_ellipsis() {
    let long = "abcdefghijklmnopqrstuvwxyz012345"; // 32 characters
    let shown = display_title(long);
    assert_eq!(shown.as_str(), "abcdefghijklmnopqrstuvwxyz0...");
    assert_eq!(shown.chars().count(), 30);
}

#[test]
fn short_title_is_shown_verbatim() {
    let shown = display_title("Idioteque");
    assert_eq!(shown.as_str(), "Idioteque");
    // Exactly at the threshold: still verbatim.
    let edge = "abcdefghijklmnopqrstuvwxyz0123"; // 30 characters
    assert_eq!(display_title(edge).as_str(), edge);
}

#[test]
fn long_artist_is_truncated_at_its_own_cutoff() {
    let long = "abcdefghijklmnopqrstuvwxyz0123456789"; // 36 characters
    let shown = display_artist(long);
    assert_eq!(shown.as_str(), "abcdefghijklmnopqrstuvwxyz012345...");
    let edge = "abcdefghijklmnopqrstuvwxyz012345678"; // 35 characters
    assert_eq!(display_artist(edge).as_str(), edge);
}

#[test]
fn provider_placeholders() {
    let i = NowPlayingInfo::from_provider_outputs(None, None, None);
    assert_eq!(i.artist.as_str(), "Unknown");
    assert_eq!(i.title.as_str(), "No media playing");
    assert_eq!(i.art_reference.as_str(), "");

    let i = NowPlayingInfo::from_provider_outputs(
        Some("Radiohead".to_string()),
        Some("Idioteque".to_string()),
        Some("http://x/img.jpg".to_string()),
    );
    assert_eq!(i.artist.as_str(), "Radiohead");
    assert_eq!(i.title.as_str(), "Idioteque");
    assert_eq!(i.art_reference.as_str(), "http://x/img.jpg");
}

#[test]
fn trim_strips_both_ends_only() {
    assert_eq!(trim_whitespace("  Radiohead\n").as_str(), "Radiohead");
    assert_eq!(trim_whitespace("\t\r\n ").as_str(), "");
    assert_eq!(trim_whitespace("no padding").as_str(), "no padding");
    assert_eq!(trim_whitespace("a  b").as_str(), "a  b");
    assert_eq!(trim_whitespace("").as_str(), "");
}

#[test]
fn temp_art_file_names_are_well_formed_and_distinct() {
    let a = temp_art_file_name();
    let b = temp_art_file_name();
    assert_eq!(a.chars().count(), 54);
    assert!(a.starts_with("spotify_album_"));
    assert!(a.ends_with(".jpg"));
    // The random token keeps overlapping fetches apart.
    assert_ne!(a, b);
}

#[test]
fn toggle_button_geometry() {
    let r = toggle_button_rect(&Config::default());
    assert_eq!((r.x, r.y, r.w, r.h), (545, 145, 40, 40));
    assert!(point_in_rect(545, 145, &r));
    assert!(point_in_rect(585, 185, &r));
    assert!(point_in_rect(560, 160, &r));
    assert!(!point_in_rect(544, 160, &r));
    assert!(!point_in_rect(560, 186, &r));
}
