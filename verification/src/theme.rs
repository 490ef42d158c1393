//! Colour themes: one colour for each part of the widgets.

use vstd::prelude::*;

verus! {

/// A colour: red, green, blue and opacity.
#[derive(Clone, Copy, Debug, PartialEq, Eq, Structural)]
pub struct Rgba {
    pub r: u8,
    pub g: u8,
    pub b: u8,
    pub a: u8,
}

/// The colour with the given parts.
pub fn color_rgba(r: u8, g: u8, b: u8, a: u8) -> (c: Rgba)
    ensures
        c == (Rgba { r, g, b, a }),
{
    Rgba { r, g, b, a }
}

/// The number of parts that a theme colours.
pub const THEME_COLORS: usize = 28;

/// A colour theme.
#[derive(Clone, Copy, Debug, PartialEq, Eq, Structural)]
pub enum Theme {
    White,
    Blue,
    Dark,
}

/// The colours of the blue theme, in the order of the parts: text, window,
/// header, border and so on.
pub open spec fn blue_parts() -> Seq<Rgba> {
    seq![
        Rgba { r: 20, g: 20, b: 20, a: 255 },
        Rgba { r: 202, g: 212, b: 214, a: 215 },
        Rgba { r: 137, g: 182, b: 224, a: 220 },
        Rgba { r: 140, g: 159, b: 173, a: 255 },
        Rgba { r: 137, g: 182, b: 224, a: 255 },
        Rgba { r: 142, g: 187, b: 229, a: 255 },
        Rgba { r: 147, g: 192, b: 234, a: 255 },
        Rgba { r: 177, g: 210, b: 210, a: 255 },
        Rgba { r: 182, g: 215, b: 215, a: 255 },
        Rgba { r: 137, g: 182, b: 224, a: 255 },
        Rgba { r: 177, g: 210, b: 210, a: 255 },
        Rgba { r: 137, g: 182, b: 224, a: 255 },
        Rgba { r: 177, g: 210, b: 210, a: 255 },
        Rgba { r: 137, g: 182, b: 224, a: 245 },
        Rgba { r: 142, g: 188, b: 229, a: 255 },
        Rgba { r: 147, g: 193, b: 234, a: 255 },
        Rgba { r: 210, g: 210, b: 210, a: 255 },
        Rgba { r: 210, g: 210, b: 210, a: 255 },
        Rgba { r: 20, g: 20, b: 20, a: 255 },
        Rgba { r: 210, g: 210, b: 210, a: 255 },
        Rgba { r: 210, g: 210, b: 210, a: 255 },
        Rgba { r: 137, g: 182, b: 224, a: 255 },
        Rgba { r: 255, g: 0, b: 0, a: 255 },
        Rgba { r: 190, g: 200, b: 200, a: 255 },
        Rgba { r: 64, g: 84, b: 95, a: 255 },
        Rgba { r: 70, g: 90, b: 100, a: 255 },
        Rgba { r: 75, g: 95, b: 105, a: 255 },
        Rgba { r: 156, g: 193, b: 220, a: 255 },
    ]
}

impl Theme {
    /// The colours of the theme, one for each part. Only the blue theme
    /// has colours.
    pub fn colors(self) -> (r: [Rgba; 28])
        requires
            self == Theme::Blue,
        ensures
            r@ == blue_parts(),
    {
        let r = [
            color_rgba(20, 20, 20, 255),  // Text
            color_rgba(202, 212, 214, 215),  // Window
            color_rgba(137, 182, 224, 220),  // Header
            color_rgba(140, 159, 173, 255),  // Border
            color_rgba(137, 182, 224, 255),  // Button
            color_rgba(142, 187, 229, 255),  // Button Hover
            color_rgba(147, 192, 234, 255),  // Button Active
            color_rgba(177, 210, 210, 255),  // Toggle
            color_rgba(182, 215, 215, 255),  // Toggle Hover
            color_rgba(137, 182, 224, 255),  // Toggle Cursor
            color_rgba(177, 210, 210, 255),  // Select
            color_rgba(137, 182, 224, 255),  // Select Active
            color_rgba(177, 210, 210, 255),  // Slider
            color_rgba(137, 182, 224, 245),  // Slider Cursor
            color_rgba(142, 188, 229, 255),  // Slider Cursor Hover
            color_rgba(147, 193, 234, 255),  // Slider Cursor Active
            color_rgba(210, 210, 210, 255),  // Property
            color_rgba(210, 210, 210, 255),  // Edit
            color_rgba(20, 20, 20, 255),  // Edit Cursor
            color_rgba(210, 210, 210, 255),  // Combo
            color_rgba(210, 210, 210, 255),  // Chart
            color_rgba(137, 182, 224, 255),  // Chart Color
            color_rgba(255, 0, 0, 255),  // Chart Color Highlight
            color_rgba(190, 200, 200, 255),  // Scrollbar
            color_rgba(64, 84, 95, 255),  // Scrollbar Cursor
            color_rgba(70, 90, 100, 255),  // Scrollbar Cursor Hover
            color_rgba(75, 95, 105, 255),  // Scrollbar Cursor Active
            color_rgba(156, 193, 220, 255),  // Tab Header
        ];
        assert(r@ =~= blue_parts());
        r
    }
}

} // verus!
