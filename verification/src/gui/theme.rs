//! Widget theme: the color palette and the spacing style shared by all
//! widgets, and the opacity-blend table that derives a widget's colors
//! from its interaction state.

use vstd::prelude::*;
use crate::pixel::Pixel;

verus! {

/// Which themed surface a widget paints on.
#[derive(Debug, Copy, Clone, PartialEq, Eq, Structural)]
pub enum ColorType {
    /// The window background.
    Background,
    /// A raised surface such as a panel.
    Surface,
    /// The primary brand surface.
    Primary,
    /// A darker variant of the primary surface.
    PrimaryVariant,
    /// The secondary brand surface.
    Secondary,
    /// A darker variant of the secondary surface.
    SecondaryVariant,
    /// The error surface.
    Error,
}

/// The theme's color palette: each surface with the color drawn on it.
#[derive(Debug, Copy, Clone, PartialEq, Eq, Structural)]
pub struct ThemeColors {
    /// The window background.
    pub background: Pixel,
    /// What is drawn on the background.
    pub on_background: Pixel,
    /// Panel surfaces.
    pub surface: Pixel,
    /// What is drawn on surfaces.
    pub on_surface: Pixel,
    /// The primary brand color.
    pub primary: Pixel,
    /// What is drawn on primary surfaces.
    pub on_primary: Pixel,
    /// The darker primary variant.
    pub primary_variant: Pixel,
    /// The secondary brand color.
    pub secondary: Pixel,
    /// What is drawn on secondary surfaces.
    pub on_secondary: Pixel,
    /// The darker secondary variant.
    pub secondary_variant: Pixel,
    /// The error color.
    pub error: Pixel,
    /// What is drawn on the error surface.
    pub on_error: Pixel,
    /// Muted chrome such as idle scroll thumbs.
    pub muted: Pixel,
    /// Highlighted chrome such as hovered scroll thumbs.
    pub highlight: Pixel,
}

/// Spacing around widget frames and between widget items.
#[derive(Debug, Copy, Clone, PartialEq, Eq, Structural)]
pub struct Style {
    /// Horizontal padding inside a frame.
    pub frame_pad_x: i32,
    /// Vertical padding inside a frame.
    pub frame_pad_y: i32,
    /// Horizontal padding between items.
    pub item_pad_x: i32,
    /// Vertical padding between items.
    pub item_pad_y: i32,
}

/// The theme: palette, text size and spacing.
#[derive(Debug, Copy, Clone, PartialEq, Eq, Structural)]
pub struct Theme {
    /// The color palette.
    pub colors: ThemeColors,
    /// The body text size in pixels.
    pub font_size: i32,
    /// Frame and item spacing.
    pub style: Style,
    /// General widget padding.
    pub padding: i32,
}

impl Theme {
    /// A well-formed theme keeps its metrics small enough for the layout
    /// arithmetic.
    pub open spec fn wf(&self) -> bool {
        &&& 1 <= self.font_size <= 256
        &&& 0 <= self.style.frame_pad_x <= 256
        &&& 0 <= self.style.frame_pad_y <= 256
        &&& 0 <= self.style.item_pad_x <= 256
        &&& 0 <= self.style.item_pad_y <= 256
        &&& 0 <= self.padding <= 256
    }

    /// The built-in dark theme.
    pub fn dark() -> (t: Theme)
        ensures
            t.wf(),
            t.font_size == 16,
            t.style == (Style { frame_pad_x: 8, frame_pad_y: 8, item_pad_x: 8, item_pad_y: 6 }),
            t.padding == 8,
    {
        Theme {
            colors: ThemeColors {
                background: Pixel::rgb(18, 18, 18),
                on_background: Pixel::rgb(255, 255, 255),
                surface: Pixel::rgb(18, 18, 18),
                on_surface: Pixel::rgb(255, 255, 255),
                primary: Pixel::rgb(187, 134, 252),
                on_primary: Pixel::rgb(0, 0, 0),
                primary_variant: Pixel::rgb(55, 0, 179),
                secondary: Pixel::rgb(3, 218, 198),
                on_secondary: Pixel::rgb(0, 0, 0),
                secondary_variant: Pixel::rgb(1, 135, 134),
                error: Pixel::rgb(207, 102, 121),
                on_error: Pixel::rgb(0, 0, 0),
                muted: Pixel::rgb(96, 96, 96),
                highlight: Pixel::rgb(3, 218, 198),
            },
            font_size: 16,
            style: Style { frame_pad_x: 8, frame_pad_y: 8, item_pad_x: 8, item_pad_y: 6 },
            padding: 8,
        }
    }
}

} // verus!
