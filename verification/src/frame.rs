use vstd::prelude::*;

use crate::config::Config;
use crate::mailbox::Mailbox;
use crate::mailbox::opt_view;
use crate::now_playing::NowPlayingInfo;
use crate::theme::ThemeState;

verus! {

/// The abstract content of a track record: the three strings it carries.
pub ghost struct TrackView {
    pub artist: Seq<char>,
    pub title: Seq<char>,
    pub art_reference: Seq<char>,
}

impl View for NowPlayingInfo {
    type V = TrackView;

    open spec fn view(&self) -> TrackView {
        TrackView {
            artist: self.artist@,
            title: self.title@,
            art_reference: self.art_reference@,
        }
    }
}

/// The render thread's authoritative view of what is currently displayed:
/// the last-adopted track text, and separately the art reference whose
/// fetch was last started, since art may lag behind text. Owned exclusively
/// by the render thread and mutated only inside the frame driver.
pub struct Cache {
    pub artist: String,
    pub title: String,
    pub art_reference: String,
}

impl View for Cache {
    type V = TrackView;

    open spec fn view(&self) -> TrackView {
        TrackView {
            artist: self.artist@,
            title: self.title@,
            art_reference: self.art_reference@,
        }
    }
}

/// Whether the newly polled track text differs from the cached one.
pub open spec fn text_changed(new: TrackView, cached: TrackView) -> bool {
    new.artist != cached.artist || new.title != cached.title
}

/// Whether the newly advertised art must be fetched: its reference differs
/// from the one last fetched, and it is non-empty. Only reference identity
/// is compared, never content, so unchanged tracks cost no network call
/// and an absent art reference costs none either.
pub open spec fn art_should_refetch(new: TrackView, cached: TrackView) -> bool {
    new.art_reference != cached.art_reference && new.art_reference.len() > 0
}

/// The change detector's verdict for one poll.
#[derive(Clone, Copy, PartialEq, Eq, Structural, Debug)]
pub struct ChangeDecision {
    pub text_changed: bool,
    pub art_should_refetch: bool,
}

/// Compares a freshly polled track against the cache and decides what has
/// to change: whether the displayed text must be replaced, and whether the
/// art must be fetched anew.
pub fn detect_change(info: &NowPlayingInfo, cache: &Cache) -> (d: ChangeDecision)
    ensures
        d.text_changed == text_changed(info@, cache@),
        d.art_should_refetch == art_should_refetch(info@, cache@),
{
    ChangeDecision {
        text_changed: !(info.artist == cache.artist) || !(info.title == cache.title),
        art_should_refetch: !(info.art_reference == cache.art_reference)
            && !info.art_reference.as_str().is_empty(),
    }
}

/// The abstract state of one run of the overlay, as the frame driver
/// mutates it tick by tick.
pub ghost struct FrameView {
    pub cache: TrackView,
    pub has_art: bool,
    pub last_poll_ms: u64,
    pub theme: ThemeState,
    pub config: Config,
}

/// Everything the frame driver owns: the cache, whether a renderable art
/// resource is currently adopted, the time of the last poll attempt, the
/// theme, and the immutable run configuration. The mailbox is not part of
/// this state: it is shared with the background fetch tasks and passed in
/// separately.
pub struct FrameState {
    pub cache: Cache,
    pub has_art: bool,
    pub last_poll_ms: u64,
    pub theme: ThemeState,
    pub config: Config,
}

impl View for FrameState {
    type V = FrameView;

    open spec fn view(&self) -> FrameView {
        FrameView {
            cache: self.cache@,
            has_art: self.has_art,
            last_poll_ms: self.last_poll_ms,
            theme: self.theme,
            config: self.config,
        }
    }
}

impl FrameState {
    /// The state at startup: nothing cached, no art adopted, the theme
    /// taken from the configuration, and the poll clock at zero — so the
    /// first poll happens on the earliest frame whose time exceeds the
    /// poll interval, not instantly.
    pub fn new(config: Config) -> (s: FrameState)
        ensures
            s.cache.artist@ == Seq::<char>::empty(),
            s.cache.title@ == Seq::<char>::empty(),
            s.cache.art_reference@ == Seq::<char>::empty(),
            !s.has_art,
            s.last_poll_ms == 0,
            s.theme.dark_mode == config.dark_mode,
            s.config == config,
    {
        FrameState {
            cache: Cache {
                artist: String::new(),
                title: String::new(),
                art_reference: String::new(),
            },
            has_art: false,
            last_poll_ms: 0,
            theme: ThemeState { dark_mode: config.dark_mode },
            config,
        }
    }
}

/// The first step of every frame: drain the mailbox. If it held a value,
/// the previously adopted resource is released at once — exactly one
/// renderable resource is ever live — and the drained path is handed back
/// so the caller can attempt to construct the new resource from it and
/// then delete the temporary file. If the mailbox was empty, the state is
/// left entirely unchanged.
pub fn begin_adoption(state: &mut FrameState, mailbox: &mut Mailbox) -> (pending: Option<
    String,
>)
    ensures
        final(mailbox)@ is None,
        opt_view(pending) == old(mailbox)@,
        old(mailbox)@ is None ==> final(state)@ == old(state)@,
        old(mailbox)@ is Some ==> final(state)@ == (FrameView {
            has_art: false,
            ..old(state)@
        }),
{
    let pending = mailbox.take();
    if pending.is_some() {
        release_resource(state);
    }
    pending
}

/// Releases the adopted resource, if any: the handle itself lives with the
/// caller, which must drop it when this state says so.
fn release_resource(state: &mut FrameState)
    ensures
        final(state)@ == (FrameView { has_art: false, ..old(state)@ }),
{
    state.has_art = false;
}

/// The second half of an adoption: records whether constructing the new
/// resource from the drained file succeeded. On failure the overlay simply
/// has no art again and renders the placeholder — never a fatal error.
pub fn complete_adoption(state: &mut FrameState, constructed: bool)
    ensures
        final(state)@ == (FrameView { has_art: constructed, ..old(state)@ }),
{
    state.has_art = constructed;
}

/// Whether the poll interval has elapsed: the provider is queried on the
/// ticks where the time since the last poll attempt exceeds the configured
/// interval, and on no others — polling is throttled by elapsed time, not
/// by frame rate.
pub fn poll_due(state: &FrameState, now_ms: u64) -> (due: bool)
    ensures
        due == (state.last_poll_ms + state.config.update_interval_ms < now_ms),
{
    now_ms > state.last_poll_ms && now_ms - state.last_poll_ms
        > state.config.update_interval_ms
}

/// Folds one poll result into the state and decides whether a fetch must
/// be spawned. The cached text is replaced when it changed; the cached art
/// reference advances and a fetch for it is requested exactly when the art
/// should be refetched; and the poll clock is reset unconditionally — even
/// a failed poll attempt counts, so an erroring provider causes no poll
/// storm. Theme, configuration and the adopted resource are untouched.
pub fn apply_poll(state: &mut FrameState, info: NowPlayingInfo, now_ms: u64) -> (fetch:
    Option<String>)
    ensures
        final(state).cache.artist@ == info.artist@,
        final(state).cache.title@ == info.title@,
        final(state).cache.art_reference@ == (if art_should_refetch(
            info@,
            old(state).cache@,
        ) {
            info.art_reference@
        } else {
            old(state).cache.art_reference@
        }),
        final(state).last_poll_ms == now_ms,
        final(state).has_art == old(state).has_art,
        final(state).theme == old(state).theme,
        final(state).config == old(state).config,
        opt_view(fetch) == (if art_should_refetch(info@, old(state).cache@) {
            Some(info.art_reference@)
        } else {
            None::<Seq<char>>
        }),
{
    let d = detect_change(&info, &state.cache);
    let NowPlayingInfo { artist, title, art_reference } = info;
    if d.text_changed {
        state.cache.artist = artist;
        state.cache.title = title;
    }
    let fetch: Option<String>;
    if d.art_should_refetch {
        state.cache.art_reference = art_reference.clone();
        fetch = Some(art_reference);
    } else {
        fetch = None;
    }
    state.last_poll_ms = now_ms;
    fetch
}

/// A press edge: the button is down on this frame and was not down on the
/// frame before.
pub open spec fn press_edge(was_down: bool, down: bool) -> bool {
    down && !was_down
}

/// Remembers whether the pointer's button was down on the previous frame,
/// so that a press can be told apart from a hold.
pub struct ButtonTracker {
    pub was_down: bool,
}

impl ButtonTracker {
    pub fn new() -> (t: ButtonTracker)
        ensures
            !t.was_down,
    {
        ButtonTracker { was_down: false }
    }

    /// Feeds one frame's button state in and reports whether this frame is
    /// a press edge.
    pub fn observe(&mut self, down: bool) -> (edge: bool)
        ensures
            edge == press_edge(old(self).was_down, down),
            final(self).was_down == down,
    {
        let edge = down && !self.was_down;
        self.was_down = down;
        edge
    }
}

/// Law: a press edge fires exactly on the frame the button goes down;
/// while the button stays held, the following frame can fire no edge, so
/// one press toggles at most once however many frames it spans.
pub proof fn lemma_press_fires_once_per_hold(was_down: bool, down: bool)
    ensures
        press_edge(was_down, down) == (down && !was_down),
        press_edge(was_down, down) ==> !press_edge(down, down),
{
}

/// The theme-toggle input step of a frame: the theme flips exactly when a
/// press edge happened with the pointer inside the toggle region, and is
/// untouched on every other frame.
pub fn handle_toggle_input(theme: &mut ThemeState, inside: bool, edge: bool)
    ensures
        final(theme).dark_mode == (if inside && edge {
            !old(theme).dark_mode
        } else {
            old(theme).dark_mode
        }),
{
    if inside && edge {
        theme.toggle();
    }
}

} // verus!
