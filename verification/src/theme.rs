//! The terminal color themes: a closed set of palettes, each mapping the
//! interface's semantic roles to colors. The colors are held as plain
//! values; whatever terminal library paints them converts at the edge.

use vstd::prelude::*;
use vstd::string::StringSliceAdditionalSpecFns;

use crate::text::eq_bytes;
use crate::text::tok;

verus! {

/// A terminal color: one of the named base colors, the terminal's own
/// default, or a 24-bit value.
#[derive(Debug, Clone, Copy, PartialEq, Eq, Structural, Hash)]
pub enum ThemeColor {
    Reset,
    Black,
    DarkGray,
    Green,
    LightBlue,
    Cyan,
    Yellow,
    Red,
    Magenta,
    Rgb(u8, u8, u8),
}

/// All semantic colors used throughout the interface, mapped from each
/// theme.
#[derive(Debug, Clone, Copy, PartialEq, Eq, Structural)]
pub struct ThemeColors {
    pub bg: ThemeColor,
    pub fg: ThemeColor,
    pub muted: ThemeColor,
    pub border: ThemeColor,
    pub title: ThemeColor,
    pub highlight_bg: ThemeColor,
    pub accent: ThemeColor,
    pub accent_secondary: ThemeColor,
    pub good: ThemeColor,
    pub warning: ThemeColor,
    pub error: ThemeColor,
    pub info: ThemeColor,
    pub score_high: ThemeColor,
    pub score_mid: ThemeColor,
    pub score_low: ThemeColor,
    pub fit_perfect: ThemeColor,
    pub fit_good: ThemeColor,
    pub fit_marginal: ThemeColor,
    pub fit_tight: ThemeColor,
    pub mode_gpu: ThemeColor,
    pub mode_moe: ThemeColor,
    pub mode_offload: ThemeColor,
    pub mode_cpu: ThemeColor,
    pub status_bg: ThemeColor,
    pub status_fg: ThemeColor,
}

/// The available color themes.
#[derive(Debug, Clone, Copy, PartialEq, Eq, Structural, Hash)]
pub enum Theme {
    Default,
    Dracula,
    Solarized,
    Nord,
    Monokai,
    Gruvbox,
}

/// Each theme's display name.
pub open spec fn spec_theme_label(t: Theme) -> Seq<char> {
    match t {
        Theme::Default => "Default"@,
        Theme::Dracula => "Dracula"@,
        Theme::Solarized => "Solarized"@,
        Theme::Nord => "Nord"@,
        Theme::Monokai => "Monokai"@,
        Theme::Gruvbox => "Gruvbox"@,
    }
}

/// The cyclic order of the themes.
pub open spec fn spec_theme_next(t: Theme) -> Theme {
    match t {
        Theme::Default => Theme::Dracula,
        Theme::Dracula => Theme::Solarized,
        Theme::Solarized => Theme::Nord,
        Theme::Nord => Theme::Monokai,
        Theme::Monokai => Theme::Gruvbox,
        Theme::Gruvbox => Theme::Default,
    }
}

/// The theme a saved display name stands for; an unknown name falls back
/// to the default theme.
pub open spec fn spec_theme_from_label(b: Seq<u8>) -> Theme {
    if b == tok("Dracula") {
        Theme::Dracula
    } else if b == tok("Solarized") {
        Theme::Solarized
    } else if b == tok("Nord") {
        Theme::Nord
    } else if b == tok("Monokai") {
        Theme::Monokai
    } else if b == tok("Gruvbox") {
        Theme::Gruvbox
    } else {
        Theme::Default
    }
}

/// The palette of each theme.
pub open spec fn spec_theme_colors(t: Theme) -> ThemeColors {
    match t {
        Theme::Default => spec_default_colors(),
        Theme::Dracula => spec_dracula_colors(),
        Theme::Solarized => spec_solarized_colors(),
        Theme::Nord => spec_nord_colors(),
        Theme::Monokai => spec_monokai_colors(),
        Theme::Gruvbox => spec_gruvbox_colors(),
    }
}

pub open spec fn spec_default_colors() -> ThemeColors {
    ThemeColors {
        bg: ThemeColor::Reset,
        fg: ThemeColor::Reset,
        muted: ThemeColor::DarkGray,
        border: ThemeColor::DarkGray,
        title: ThemeColor::Green,
        highlight_bg: ThemeColor::LightBlue,
        accent: ThemeColor::Cyan,
        accent_secondary: ThemeColor::Yellow,
        good: ThemeColor::Green,
        warning: ThemeColor::Yellow,
        error: ThemeColor::Red,
        info: ThemeColor::Cyan,
        score_high: ThemeColor::Green,
        score_mid: ThemeColor::Yellow,
        score_low: ThemeColor::Red,
        fit_perfect: ThemeColor::Green,
        fit_good: ThemeColor::Yellow,
        fit_marginal: ThemeColor::Magenta,
        fit_tight: ThemeColor::Red,
        mode_gpu: ThemeColor::Green,
        mode_moe: ThemeColor::Cyan,
        mode_offload: ThemeColor::Yellow,
        mode_cpu: ThemeColor::DarkGray,
        status_bg: ThemeColor::Green,
        status_fg: ThemeColor::Black,
    }
}

pub open spec fn spec_dracula_colors() -> ThemeColors {
    ThemeColors {
        bg: ThemeColor::Rgb(40, 42, 54),
        fg: ThemeColor::Rgb(248, 248, 242),
        muted: ThemeColor::Rgb(98, 114, 164),
        border: ThemeColor::Rgb(68, 71, 90),
        title: ThemeColor::Rgb(80, 250, 123),
        highlight_bg: ThemeColor::Rgb(68, 71, 90),
        accent: ThemeColor::Rgb(139, 233, 253),
        accent_secondary: ThemeColor::Rgb(241, 250, 140),
        good: ThemeColor::Rgb(80, 250, 123),
        warning: ThemeColor::Rgb(241, 250, 140),
        error: ThemeColor::Rgb(255, 85, 85),
        info: ThemeColor::Rgb(139, 233, 253),
        score_high: ThemeColor::Rgb(80, 250, 123),
        score_mid: ThemeColor::Rgb(241, 250, 140),
        score_low: ThemeColor::Rgb(255, 85, 85),
        fit_perfect: ThemeColor::Rgb(80, 250, 123),
        fit_good: ThemeColor::Rgb(241, 250, 140),
        fit_marginal: ThemeColor::Rgb(189, 147, 249),
        fit_tight: ThemeColor::Rgb(255, 85, 85),
        mode_gpu: ThemeColor::Rgb(80, 250, 123),
        mode_moe: ThemeColor::Rgb(139, 233, 253),
        mode_offload: ThemeColor::Rgb(241, 250, 140),
        mode_cpu: ThemeColor::Rgb(98, 114, 164),
        status_bg: ThemeColor::Rgb(189, 147, 249),
        status_fg: ThemeColor::Rgb(40, 42, 54),
    }
}

pub open spec fn spec_solarized_colors() -> ThemeColors {
    ThemeColors {
        bg: ThemeColor::Rgb(0, 43, 54),
        fg: ThemeColor::Rgb(131, 148, 150),
        muted: ThemeColor::Rgb(88, 110, 117),
        border: ThemeColor::Rgb(88, 110, 117),
        title: ThemeColor::Rgb(133, 153, 0),
        highlight_bg: ThemeColor::Rgb(7, 54, 66),
        accent: ThemeColor::Rgb(38, 139, 210),
        accent_secondary: ThemeColor::Rgb(181, 137, 0),
        good: ThemeColor::Rgb(133, 153, 0),
        warning: ThemeColor::Rgb(181, 137, 0),
        error: ThemeColor::Rgb(220, 50, 47),
        info: ThemeColor::Rgb(38, 139, 210),
        score_high: ThemeColor::Rgb(133, 153, 0),
        score_mid: ThemeColor::Rgb(181, 137, 0),
        score_low: ThemeColor::Rgb(220, 50, 47),
        fit_perfect: ThemeColor::Rgb(133, 153, 0),
        fit_good: ThemeColor::Rgb(181, 137, 0),
        fit_marginal: ThemeColor::Rgb(211, 54, 130),
        fit_tight: ThemeColor::Rgb(220, 50, 47),
        mode_gpu: ThemeColor::Rgb(133, 153, 0),
        mode_moe: ThemeColor::Rgb(42, 161, 152),
        mode_offload: ThemeColor::Rgb(181, 137, 0),
        mode_cpu: ThemeColor::Rgb(88, 110, 117),
        status_bg: ThemeColor::Rgb(38, 139, 210),
        status_fg: ThemeColor::Rgb(253, 246, 227),
    }
}

pub open spec fn spec_nord_colors() -> ThemeColors {
    ThemeColors {
        bg: ThemeColor::Rgb(46, 52, 64),
        fg: ThemeColor::Rgb(216, 222, 233),
        muted: ThemeColor::Rgb(76, 86, 106),
        border: ThemeColor::Rgb(67, 76, 94),
        title: ThemeColor::Rgb(163, 190, 140),
        highlight_bg: ThemeColor::Rgb(59, 66, 82),
        accent: ThemeColor::Rgb(136, 192, 208),
        accent_secondary: ThemeColor::Rgb(235, 203, 139),
        good: ThemeColor::Rgb(163, 190, 140),
        warning: ThemeColor::Rgb(235, 203, 139),
        error: ThemeColor::Rgb(191, 97, 106),
        info: ThemeColor::Rgb(136, 192, 208),
        score_high: ThemeColor::Rgb(163, 190, 140),
        score_mid: ThemeColor::Rgb(235, 203, 139),
        score_low: ThemeColor::Rgb(191, 97, 106),
        fit_perfect: ThemeColor::Rgb(163, 190, 140),
        fit_good: ThemeColor::Rgb(235, 203, 139),
        fit_marginal: ThemeColor::Rgb(180, 142, 173),
        fit_tight: ThemeColor::Rgb(191, 97, 106),
        mode_gpu: ThemeColor::Rgb(163, 190, 140),
        mode_moe: ThemeColor::Rgb(136, 192, 208),
        mode_offload: ThemeColor::Rgb(235, 203, 139),
        mode_cpu: ThemeColor::Rgb(76, 86, 106),
        status_bg: ThemeColor::Rgb(129, 161, 193),
        status_fg: ThemeColor::Rgb(46, 52, 64),
    }
}

pub open spec fn spec_monokai_colors() -> ThemeColors {
    ThemeColors {
        bg: ThemeColor::Rgb(39, 40, 34),
        fg: ThemeColor::Rgb(248, 248, 242),
        muted: ThemeColor::Rgb(117, 113, 94),
        border: ThemeColor::Rgb(73, 72, 62),
        title: ThemeColor::Rgb(166, 226, 46),
        highlight_bg: ThemeColor::Rgb(73, 72, 62),
        accent: ThemeColor::Rgb(102, 217, 239),
        accent_secondary: ThemeColor::Rgb(230, 219, 116),
        good: ThemeColor::Rgb(166, 226, 46),
        warning: ThemeColor::Rgb(230, 219, 116),
        error: ThemeColor::Rgb(249, 38, 114),
        info: ThemeColor::Rgb(102, 217, 239),
        score_high: ThemeColor::Rgb(166, 226, 46),
        score_mid: ThemeColor::Rgb(230, 219, 116),
        score_low: ThemeColor::Rgb(249, 38, 114),
        fit_perfect: ThemeColor::Rgb(166, 226, 46),
        fit_good: ThemeColor::Rgb(230, 219, 116),
        fit_marginal: ThemeColor::Rgb(174, 129, 255),
        fit_tight: ThemeColor::Rgb(249, 38, 114),
        mode_gpu: ThemeColor::Rgb(166, 226, 46),
        mode_moe: ThemeColor::Rgb(102, 217, 239),
        mode_offload: ThemeColor::Rgb(230, 219, 116),
        mode_cpu: ThemeColor::Rgb(117, 113, 94),
        status_bg: ThemeColor::Rgb(253, 151, 31),
        status_fg: ThemeColor::Rgb(39, 40, 34),
    }
}

pub open spec fn spec_gruvbox_colors() -> ThemeColors {
    ThemeColors {
        bg: ThemeColor::Rgb(40, 40, 40),
        fg: ThemeColor::Rgb(235, 219, 178),
        muted: ThemeColor::Rgb(146, 131, 116),
        border: ThemeColor::Rgb(80, 73, 69),
        title: ThemeColor::Rgb(184, 187, 38),
        highlight_bg: ThemeColor::Rgb(60, 56, 54),
        accent: ThemeColor::Rgb(131, 165, 152),
        accent_secondary: ThemeColor::Rgb(250, 189, 47),
        good: ThemeColor::Rgb(184, 187, 38),
        warning: ThemeColor::Rgb(250, 189, 47),
        error: ThemeColor::Rgb(251, 73, 52),
        info: ThemeColor::Rgb(131, 165, 152),
        score_high: ThemeColor::Rgb(184, 187, 38),
        score_mid: ThemeColor::Rgb(250, 189, 47),
        score_low: ThemeColor::Rgb(251, 73, 52),
        fit_perfect: ThemeColor::Rgb(184, 187, 38),
        fit_good: ThemeColor::Rgb(250, 189, 47),
        fit_marginal: ThemeColor::Rgb(211, 134, 155),
        fit_tight: ThemeColor::Rgb(251, 73, 52),
        mode_gpu: ThemeColor::Rgb(184, 187, 38),
        mode_moe: ThemeColor::Rgb(131, 165, 152),
        mode_offload: ThemeColor::Rgb(250, 189, 47),
        mode_cpu: ThemeColor::Rgb(146, 131, 116),
        status_bg: ThemeColor::Rgb(214, 93, 14),
        status_fg: ThemeColor::Rgb(40, 40, 40),
    }
}

impl Theme {
    /// Display name of the theme.
    pub fn label(&self) -> (r: &'static str)
        ensures
            r@ == spec_theme_label(*self),
    {
        match self {
            Theme::Default => "Default",
            Theme::Dracula => "Dracula",
            Theme::Solarized => "Solarized",
            Theme::Nord => "Nord",
            Theme::Monokai => "Monokai",
            Theme::Gruvbox => "Gruvbox",
        }
    }

    /// The next theme in the cycle.
    pub fn next(&self) -> (r: Self)
        ensures
            r == spec_theme_next(*self),
    {
        match self {
            Theme::Default => Theme::Dracula,
            Theme::Dracula => Theme::Solarized,
            Theme::Solarized => Theme::Nord,
            Theme::Nord => Theme::Monokai,
            Theme::Monokai => Theme::Gruvbox,
            Theme::Gruvbox => Theme::Default,
        }
    }

    /// The theme a saved display name stands for.
    pub fn from_label(s: &str) -> (r: Theme)
        ensures
            r == spec_theme_from_label(s.spec_bytes()),
    {
        let b = s.as_bytes();
        if eq_bytes(b, "Dracula".as_bytes()) {
            Theme::Dracula
        } else if eq_bytes(b, "Solarized".as_bytes()) {
            Theme::Solarized
        } else if eq_bytes(b, "Nord".as_bytes()) {
            Theme::Nord
        } else if eq_bytes(b, "Monokai".as_bytes()) {
            Theme::Monokai
        } else if eq_bytes(b, "Gruvbox".as_bytes()) {
            Theme::Gruvbox
        } else {
            Theme::Default
        }
    }

    /// The theme's palette.
    pub fn colors(&self) -> (r: ThemeColors)
        ensures
            r == spec_theme_colors(*self),
    {
        match self {
            Theme::Default => default_colors(),
            Theme::Dracula => dracula_colors(),
            Theme::Solarized => solarized_colors(),
            Theme::Nord => nord_colors(),
            Theme::Monokai => monokai_colors(),
            Theme::Gruvbox => gruvbox_colors(),
        }
    }
}

fn default_colors() -> (r: ThemeColors)
    ensures
        r == spec_default_colors(),
{
    ThemeColors {
        bg: ThemeColor::Reset,
        fg: ThemeColor::Reset,
        muted: ThemeColor::DarkGray,
        border: ThemeColor::DarkGray,
        title: ThemeColor::Green,
        highlight_bg: ThemeColor::LightBlue,
        accent: ThemeColor::Cyan,
        accent_secondary: ThemeColor::Yellow,
        good: ThemeColor::Green,
        warning: ThemeColor::Yellow,
        error: ThemeColor::Red,
        info: ThemeColor::Cyan,
        score_high: ThemeColor::Green,
        score_mid: ThemeColor::Yellow,
        score_low: ThemeColor::Red,
        fit_perfect: ThemeColor::Green,
        fit_good: ThemeColor::Yellow,
        fit_marginal: ThemeColor::Magenta,
        fit_tight: ThemeColor::Red,
        mode_gpu: ThemeColor::Green,
        mode_moe: ThemeColor::Cyan,
        mode_offload: ThemeColor::Yellow,
        mode_cpu: ThemeColor::DarkGray,
        status_bg: ThemeColor::Green,
        status_fg: ThemeColor::Black,
    }
}

fn dracula_colors() -> (r: ThemeColors)
    ensures
        r == spec_dracula_colors(),
{
    ThemeColors {
        bg: ThemeColor::Rgb(40, 42, 54),
        fg: ThemeColor::Rgb(248, 248, 242),
        muted: ThemeColor::Rgb(98, 114, 164),
        border: ThemeColor::Rgb(68, 71, 90),
        title: ThemeColor::Rgb(80, 250, 123),
        highlight_bg: ThemeColor::Rgb(68, 71, 90),
        accent: ThemeColor::Rgb(139, 233, 253),
        accent_secondary: ThemeColor::Rgb(241, 250, 140),
        good: ThemeColor::Rgb(80, 250, 123),
        warning: ThemeColor::Rgb(241, 250, 140),
        error: ThemeColor::Rgb(255, 85, 85),
        info: ThemeColor::Rgb(139, 233, 253),
        score_high: ThemeColor::Rgb(80, 250, 123),
        score_mid: ThemeColor::Rgb(241, 250, 140),
        score_low: ThemeColor::Rgb(255, 85, 85),
        fit_perfect: ThemeColor::Rgb(80, 250, 123),
        fit_good: ThemeColor::Rgb(241, 250, 140),
        fit_marginal: ThemeColor::Rgb(189, 147, 249),
        fit_tight: ThemeColor::Rgb(255, 85, 85),
        mode_gpu: ThemeColor::Rgb(80, 250, 123),
        mode_moe: ThemeColor::Rgb(139, 233, 253),
        mode_offload: ThemeColor::Rgb(241, 250, 140),
        mode_cpu: ThemeColor::Rgb(98, 114, 164),
        status_bg: ThemeColor::Rgb(189, 147, 249),
        status_fg: ThemeColor::Rgb(40, 42, 54),
    }
}

fn solarized_colors() -> (r: ThemeColors)
    ensures
        r == spec_solarized_colors(),
{
    ThemeColors {
        bg: ThemeColor::Rgb(0, 43, 54),
        fg: ThemeColor::Rgb(131, 148, 150),
        muted: ThemeColor::Rgb(88, 110, 117),
        border: ThemeColor::Rgb(88, 110, 117),
        title: ThemeColor::Rgb(133, 153, 0),
        highlight_bg: ThemeColor::Rgb(7, 54, 66),
        accent: ThemeColor::Rgb(38, 139, 210),
        accent_secondary: ThemeColor::Rgb(181, 137, 0),
        good: ThemeColor::Rgb(133, 153, 0),
        warning: ThemeColor::Rgb(181, 137, 0),
        error: ThemeColor::Rgb(220, 50, 47),
        info: ThemeColor::Rgb(38, 139, 210),
        score_high: ThemeColor::Rgb(133, 153, 0),
        score_mid: ThemeColor::Rgb(181, 137, 0),
        score_low: ThemeColor::Rgb(220, 50, 47),
        fit_perfect: ThemeColor::Rgb(133, 153, 0),
        fit_good: ThemeColor::Rgb(181, 137, 0),
        fit_marginal: ThemeColor::Rgb(211, 54, 130),
        fit_tight: ThemeColor::Rgb(220, 50, 47),
        mode_gpu: ThemeColor::Rgb(133, 153, 0),
        mode_moe: ThemeColor::Rgb(42, 161, 152),
        mode_offload: ThemeColor::Rgb(181, 137, 0),
        mode_cpu: ThemeColor::Rgb(88, 110, 117),
        status_bg: ThemeColor::Rgb(38, 139, 210),
        status_fg: ThemeColor::Rgb(253, 246, 227),
    }
}

fn nord_colors() -> (r: ThemeColors)
    ensures
        r == spec_nord_colors(),
{
    ThemeColors {
        bg: ThemeColor::Rgb(46, 52, 64),
        fg: ThemeColor::Rgb(216, 222, 233),
        muted: ThemeColor::Rgb(76, 86, 106),
        border: ThemeColor::Rgb(67, 76, 94),
        title: ThemeColor::Rgb(163, 190, 140),
        highlight_bg: ThemeColor::Rgb(59, 66, 82),
        accent: ThemeColor::Rgb(136, 192, 208),
        accent_secondary: ThemeColor::Rgb(235, 203, 139),
        good: ThemeColor::Rgb(163, 190, 140),
        warning: ThemeColor::Rgb(235, 203, 139),
        error: ThemeColor::Rgb(191, 97, 106),
        info: ThemeColor::Rgb(136, 192, 208),
        score_high: ThemeColor::Rgb(163, 190, 140),
        score_mid: ThemeColor::Rgb(235, 203, 139),
        score_low: ThemeColor::Rgb(191, 97, 106),
        fit_perfect: ThemeColor::Rgb(163, 190, 140),
        fit_good: ThemeColor::Rgb(235, 203, 139),
        fit_marginal: ThemeColor::Rgb(180, 142, 173),
        fit_tight: ThemeColor::Rgb(191, 97, 106),
        mode_gpu: ThemeColor::Rgb(163, 190, 140),
        mode_moe: ThemeColor::Rgb(136, 192, 208),
        mode_offload: ThemeColor::Rgb(235, 203, 139),
        mode_cpu: ThemeColor::Rgb(76, 86, 106),
        status_bg: ThemeColor::Rgb(129, 161, 193),
        status_fg: ThemeColor::Rgb(46, 52, 64),
    }
}

fn monokai_colors() -> (r: ThemeColors)
    ensures
        r == spec_monokai_colors(),
{
    ThemeColors {
        bg: ThemeColor::Rgb(39, 40, 34),
        fg: ThemeColor::Rgb(248, 248, 242),
        muted: ThemeColor::Rgb(117, 113, 94),
        border: ThemeColor::Rgb(73, 72, 62),
        title: ThemeColor::Rgb(166, 226, 46),
        highlight_bg: ThemeColor::Rgb(73, 72, 62),
        accent: ThemeColor::Rgb(102, 217, 239),
        accent_secondary: ThemeColor::Rgb(230, 219, 116),
        good: ThemeColor::Rgb(166, 226, 46),
        warning: ThemeColor::Rgb(230, 219, 116),
        error: ThemeColor::Rgb(249, 38, 114),
        info: ThemeColor::Rgb(102, 217, 239),
        score_high: ThemeColor::Rgb(166, 226, 46),
        score_mid: ThemeColor::Rgb(230, 219, 116),
        score_low: ThemeColor::Rgb(249, 38, 114),
        fit_perfect: ThemeColor::Rgb(166, 226, 46),
        fit_good: ThemeColor::Rgb(230, 219, 116),
        fit_marginal: ThemeColor::Rgb(174, 129, 255),
        fit_tight: ThemeColor::Rgb(249, 38, 114),
        mode_gpu: ThemeColor::Rgb(166, 226, 46),
        mode_moe: ThemeColor::Rgb(102, 217, 239),
        mode_offload: ThemeColor::Rgb(230, 219, 116),
        mode_cpu: ThemeColor::Rgb(117, 113, 94),
        status_bg: ThemeColor::Rgb(253, 151, 31),
        status_fg: ThemeColor::Rgb(39, 40, 34),
    }
}

fn gruvbox_colors() -> (r: ThemeColors)
    ensures
        r == spec_gruvbox_colors(),
{
    ThemeColors {
        bg: ThemeColor::Rgb(40, 40, 40),
        fg: ThemeColor::Rgb(235, 219, 178),
        muted: ThemeColor::Rgb(146, 131, 116),
        border: ThemeColor::Rgb(80, 73, 69),
        title: ThemeColor::Rgb(184, 187, 38),
        highlight_bg: ThemeColor::Rgb(60, 56, 54),
        accent: ThemeColor::Rgb(131, 165, 152),
        accent_secondary: ThemeColor::Rgb(250, 189, 47),
        good: ThemeColor::Rgb(184, 187, 38),
        warning: ThemeColor::Rgb(250, 189, 47),
        error: ThemeColor::Rgb(251, 73, 52),
        info: ThemeColor::Rgb(131, 165, 152),
        score_high: ThemeColor::Rgb(184, 187, 38),
        score_mid: ThemeColor::Rgb(250, 189, 47),
        score_low: ThemeColor::Rgb(251, 73, 52),
        fit_perfect: ThemeColor::Rgb(184, 187, 38),
        fit_good: ThemeColor::Rgb(250, 189, 47),
        fit_marginal: ThemeColor::Rgb(211, 134, 155),
        fit_tight: ThemeColor::Rgb(251, 73, 52),
        mode_gpu: ThemeColor::Rgb(184, 187, 38),
        mode_moe: ThemeColor::Rgb(131, 165, 152),
        mode_offload: ThemeColor::Rgb(250, 189, 47),
        mode_cpu: ThemeColor::Rgb(146, 131, 116),
        status_bg: ThemeColor::Rgb(214, 93, 14),
        status_fg: ThemeColor::Rgb(40, 40, 40),
    }
}

} // verus!
