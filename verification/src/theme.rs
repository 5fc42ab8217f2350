use vstd::prelude::*;

verus! {

/// One colour, as red, green, blue and alpha channels.
#[derive(Clone, Copy, PartialEq, Eq, Structural, Debug)]
pub struct Rgba {
    pub r: u8,
    pub g: u8,
    pub b: u8,
    pub a: u8,
}

/// The palette derived from the theme flag: two background gradient stops,
/// primary and secondary text, the placeholder's background, border and icon,
/// and the toggle button's base and hover colours.
#[derive(Clone, Copy, PartialEq, Eq, Structural, Debug)]
pub struct Palette {
    pub bg_top: Rgba,
    pub bg_bottom: Rgba,
    pub text_primary: Rgba,
    pub text_secondary: Rgba,
    pub placeholder_bg: Rgba,
    pub placeholder_border: Rgba,
    pub placeholder_icon: Rgba,
    pub button_bg: Rgba,
    pub button_hover: Rgba,
}

pub open spec fn rgb(r: u8, g: u8, b: u8) -> Rgba {
    Rgba { r, g, b, a: 255 }
}

pub open spec fn dark_palette() -> Palette {
    Palette {
        bg_top: rgb(30, 30, 35),
        bg_bottom: rgb(15, 15, 20),
        text_primary: rgb(240, 240, 245),
        text_secondary: rgb(160, 160, 170),
        placeholder_bg: rgb(40, 40, 45),
        placeholder_border: rgb(80, 80, 85),
        placeholder_icon: rgb(100, 100, 105),
        button_bg: rgb(50, 50, 55),
        button_hover: rgb(70, 70, 75),
    }
}

pub open spec fn light_palette() -> Palette {
    Palette {
        bg_top: rgb(245, 245, 250),
        bg_bottom: rgb(230, 230, 240),
        text_primary: rgb(20, 20, 25),
        text_secondary: rgb(80, 80, 90),
        placeholder_bg: rgb(220, 220, 230),
        placeholder_border: rgb(180, 180, 190),
        placeholder_icon: rgb(150, 150, 160),
        button_bg: rgb(210, 210, 220),
        button_hover: rgb(190, 190, 200),
    }
}

/// The palette that belongs to a value of the theme flag.
pub open spec fn palette_of(dark_mode: bool) -> Palette {
    if dark_mode {
        dark_palette()
    } else {
        light_palette()
    }
}

/// The binary theme: a single flag, toggled by the user, from which the
/// whole palette is derived. Nothing else is stored and nothing persists
/// across runs.
#[derive(Clone, Copy, PartialEq, Eq, Structural, Debug)]
pub struct ThemeState {
    pub dark_mode: bool,
}

impl ThemeState {
    pub fn new(dark_mode: bool) -> (t: ThemeState)
        ensures
            t.dark_mode == dark_mode,
    {
        ThemeState { dark_mode }
    }

    /// Flips the theme flag and nothing else.
    pub fn toggle(&mut self)
        ensures
            final(self).dark_mode == !old(self).dark_mode,
    {
        self.dark_mode = !self.dark_mode;
    }

    /// A pure projection of the theme flag onto the fixed palette of the
    /// active variant; safe to call every frame.
    pub fn palette(&self) -> (p: Palette)
        ensures
            p == palette_of(self.dark_mode),
    {
        if self.dark_mode {
            Palette {
                bg_top: Rgba { r: 30, g: 30, b: 35, a: 255 },
                bg_bottom: Rgba { r: 15, g: 15, b: 20, a: 255 },
                text_primary: Rgba { r: 240, g: 240, b: 245, a: 255 },
                text_secondary: Rgba { r: 160, g: 160, b: 170, a: 255 },
                placeholder_bg: Rgba { r: 40, g: 40, b: 45, a: 255 },
                placeholder_border: Rgba { r: 80, g: 80, b: 85, a: 255 },
                placeholder_icon: Rgba { r: 100, g: 100, b: 105, a: 255 },
                button_bg: Rgba { r: 50, g: 50, b: 55, a: 255 },
                button_hover: Rgba { r: 70, g: 70, b: 75, a: 255 },
            }
        } else {
            Palette {
                bg_top: Rgba { r: 245, g: 245, b: 250, a: 255 },
                bg_bottom: Rgba { r: 230, g: 230, b: 240, a: 255 },
                text_primary: Rgba { r: 20, g: 20, b: 25, a: 255 },
                text_secondary: Rgba { r: 80, g: 80, b: 90, a: 255 },
                placeholder_bg: Rgba { r: 220, g: 220, b: 230, a: 255 },
                placeholder_border: Rgba { r: 180, g: 180, b: 190, a: 255 },
                placeholder_icon: Rgba { r: 150, g: 150, b: 160, a: 255 },
                button_bg: Rgba { r: 210, g: 210, b: 220, a: 255 },
                button_hover: Rgba { r: 190, g: 190, b: 200, a: 255 },
            }
        }
    }
}

/// Law: toggling moves the palette to the other variant's fixed palette,
/// and the two variants' palettes are distinct, so a toggle is always
/// visible.
pub proof fn lemma_toggle_swaps_palette(dark_mode: bool)
    ensures
        palette_of(!dark_mode) == (if dark_mode {
            light_palette()
        } else {
            dark_palette()
        }),
        palette_of(!dark_mode) != palette_of(dark_mode),
{
}

} // verus!
