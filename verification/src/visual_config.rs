//! The visual theme a host renders with: colors for the backdrop grid, the
//! ball's gradient, and the UI text. The core only owns the data; drawing is
//! the host's business.
use vstd::prelude::*;

verus! {

/// An RGB color.
#[derive(Debug, Clone, Copy, PartialEq, Eq, Structural)]
pub struct Color {
    pub r: u8,
    pub g: u8,
    pub b: u8,
}

/// The checkerboard backdrop: two alternating grid colors and the tile size
/// in milli-pixels.
#[derive(Debug, Clone, Copy, PartialEq, Eq, Structural)]
pub struct BackgroundStyle {
    pub grid_color_dark: Color,
    pub grid_color_light: Color,
    pub grid_size: i64,
}

/// The ball's look: a diagonal gradient, an outline, and its radius as a
/// per-mille fraction of the screen width.
#[derive(Debug, Clone, Copy, PartialEq, Eq, Structural)]
pub struct BallStyle {
    pub gradient_start: Color,
    pub gradient_end: Color,
    pub outline_color: Color,
    pub radius_per_mille: i64,
}

/// Colors for the UI text and buttons.
#[derive(Debug, Clone, Copy, PartialEq, Eq, Structural)]
pub struct UIStyle {
    pub title_color: Color,
    pub subtitle_color: Color,
    pub stats_color: Color,
    pub button_color: Color,
    pub button_hover_color: Color,
    pub background_color: Color,
}

/// A complete theme.
#[derive(Debug, Clone, Copy, PartialEq, Eq, Structural)]
pub struct Theme {
    pub background: BackgroundStyle,
    pub ball: BallStyle,
    pub ui: UIStyle,
}

/// The built-in theme as a spec-level value.
pub open spec fn default_theme() -> Theme {
    Theme {
        background: BackgroundStyle {
            grid_color_dark: Color { r: 0, g: 31, b: 86 },
            grid_color_light: Color { r: 0, g: 48, b: 130 },
            grid_size: 80_000,
        },
        ball: BallStyle {
            gradient_start: Color { r: 16, g: 180, b: 195 },
            gradient_end: Color { r: 17, g: 197, b: 140 },
            outline_color: Color { r: 70, g: 226, b: 213 },
            radius_per_mille: 25,
        },
        ui: UIStyle {
            title_color: Color { r: 255, g: 215, b: 0 },
            subtitle_color: Color { r: 255, g: 105, b: 120 },
            stats_color: Color { r: 135, g: 206, b: 235 },
            button_color: Color { r: 255, g: 255, b: 255 },
            button_hover_color: Color { r: 240, g: 240, b: 240 },
            background_color: Color { r: 0, g: 31, b: 86 },
        },
    }
}

impl Default for Theme {
    /// The built-in dark-blue theme: a night-blue checkerboard, a teal-green
    /// ball at a fortieth of the screen width, and warm UI accents.
    fn default() -> (t: Theme)
        ensures
            t == default_theme(),
    {
        Theme {
            background: BackgroundStyle {
                grid_color_dark: Color { r: 0, g: 31, b: 86 },
                grid_color_light: Color { r: 0, g: 48, b: 130 },
                grid_size: 80_000,
            },
            ball: BallStyle {
                gradient_start: Color { r: 16, g: 180, b: 195 },
                gradient_end: Color { r: 17, g: 197, b: 140 },
                outline_color: Color { r: 70, g: 226, b: 213 },
                radius_per_mille: 25,
            },
            ui: UIStyle {
                title_color: Color { r: 255, g: 215, b: 0 },
                subtitle_color: Color { r: 255, g: 105, b: 120 },
                stats_color: Color { r: 135, g: 206, b: 235 },
                button_color: Color { r: 255, g: 255, b: 255 },
                button_hover_color: Color { r: 240, g: 240, b: 240 },
                background_color: Color { r: 0, g: 31, b: 86 },
            },
        }
    }
}

} // verus!
