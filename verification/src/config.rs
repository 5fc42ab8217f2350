use vstd::prelude::*;

verus! {

/// Static run parameters: window size, initial theme, poll interval.
/// Loaded once at start and immutable thereafter; the poll interval is
/// measured in whole milliseconds.
#[derive(Clone, Copy, PartialEq, Eq, Structural, Debug)]
pub struct Config {
    pub dark_mode: bool,
    pub window_width: i32,
    pub window_height: i32,
    pub update_interval_ms: u64,
}

pub const DEFAULT_DARK_MODE: bool = true;

pub const DEFAULT_WINDOW_WIDTH: i32 = 600;

pub const DEFAULT_WINDOW_HEIGHT: i32 = 200;

pub const DEFAULT_UPDATE_INTERVAL_MS: u64 = 2000;

impl Default for Config {
    /// The configuration used when no option is given at all.
    fn default() -> (c: Config)
        ensures
            c == Config::default_spec(),
    {
        Config {
            dark_mode: DEFAULT_DARK_MODE,
            window_width: DEFAULT_WINDOW_WIDTH,
            window_height: DEFAULT_WINDOW_HEIGHT,
            update_interval_ms: DEFAULT_UPDATE_INTERVAL_MS,
        }
    }
}

impl Config {
    pub open spec fn default_spec() -> Config {
        Config {
            dark_mode: DEFAULT_DARK_MODE,
            window_width: DEFAULT_WINDOW_WIDTH,
            window_height: DEFAULT_WINDOW_HEIGHT,
            update_interval_ms: DEFAULT_UPDATE_INTERVAL_MS,
        }
    }

    /// Builds the run configuration from whatever options the configuration
    /// document supplied: every missing option falls back to its default,
    /// so a partial or absent document never aborts startup.
    pub fn from_overrides(
        dark_mode: Option<bool>,
        window_width: Option<i32>,
        window_height: Option<i32>,
        update_interval_ms: Option<u64>,
    ) -> (c: Config)
        ensures
            c.dark_mode == (match dark_mode {
                Some(v) => v,
                None => DEFAULT_DARK_MODE,
            }),
            c.window_width == (match window_width {
                Some(v) => v,
                None => DEFAULT_WINDOW_WIDTH,
            }),
            c.window_height == (match window_height {
                Some(v) => v,
                None => DEFAULT_WINDOW_HEIGHT,
            }),
            c.update_interval_ms == (match update_interval_ms {
                Some(v) => v,
                None => DEFAULT_UPDATE_INTERVAL_MS,
            }),
    {
        Config {
            dark_mode: match dark_mode {
                Some(v) => v,
                None => DEFAULT_DARK_MODE,
            },
            window_width: match window_width {
                Some(v) => v,
                None => DEFAULT_WINDOW_WIDTH,
            },
            window_height: match window_height {
                Some(v) => v,
                None => DEFAULT_WINDOW_HEIGHT,
            },
            update_interval_ms: match update_interval_ms {
                Some(v) => v,
                None => DEFAULT_UPDATE_INTERVAL_MS,
            },
        }
    }
}

} // verus!
