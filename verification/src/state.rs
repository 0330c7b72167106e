//! The engine state handed to application callbacks: the rasterizer, the
//! GUI interaction store, the theme and the draw settings, with the
//! widget-shared plumbing.

use vstd::prelude::*;
use vstd::string::{StrSliceExecFns, StringExecFns};
use crate::draw::StateData;
use crate::event::{Key, KeyMod, Mouse};
use crate::gui::Rect;
use crate::gui::state::UiState;
use crate::gui::theme::{ColorType, Theme, ThemeColors};
use crate::pixel::{spec_overlay, Pixel};

verus! {

/// The error type widget and window operations report.
#[derive(Debug, Clone, PartialEq, Eq, Structural)]
pub enum PixError {
    /// The rendering backend failed.
    Renderer,
    /// An argument was outside what the call accepts.
    InvalidInput,
}

impl PixError {
    /// A short description of the error.
    pub fn message(&self) -> (r: &'static str)
        ensures
            (*self is Renderer) ==> r@ == "renderer error"@,
            (*self is InvalidInput) ==> r@ == "invalid input"@,
    {
        match self {
            PixError::Renderer => "renderer error",
            PixError::InvalidInput => "invalid input",
        }
    }
}

/// The result type widget and window operations report.
pub type PixResult<T> = Result<T, PixError>;

/// The draw settings a widget call may push and pop: the current fill and
/// stroke colors.
#[derive(Debug, Copy, Clone, PartialEq, Eq, Structural)]
pub struct Settings {
    /// The fill color, or `None` to skip filling.
    pub fill: Option<Pixel>,
    /// The stroke color, or `None` to skip stroking.
    pub stroke: Option<Pixel>,
}

/// The colors the opacity-blend table assigns a widget: `(stroke,
/// background, foreground)` derived from its interaction state. The
/// percentages are fixed parts of the contract: a focused surface carries
/// a 12% overlay, an active one 8%, a hovered one 4% (12% when branded), a
/// disabled stroke 18%, disabled content 38%, branded stroke emphasis 60%
/// and enabled content 87%.
pub open spec fn spec_widget_colors(
    focused: bool,
    active: bool,
    hovered: bool,
    disabled: bool,
    c: ThemeColors,
    surface: ColorType,
) -> (Pixel, Pixel, Pixel) {
    let white = Pixel { r: 255, g: 255, b: 255, a: 255 };
    let bg = match surface {
        ColorType::Background => c.background,
        ColorType::Surface => c.surface,
        ColorType::Primary => c.primary,
        ColorType::PrimaryVariant => c.primary_variant,
        ColorType::Secondary => c.secondary,
        ColorType::SecondaryVariant => c.secondary_variant,
        ColorType::Error => c.error,
    };
    let overlay = match surface {
        ColorType::Background => c.on_background,
        ColorType::Surface => c.on_surface,
        ColorType::Primary => c.on_primary,
        ColorType::PrimaryVariant => c.on_primary,
        ColorType::Secondary => c.on_secondary,
        ColorType::SecondaryVariant => c.on_secondary,
        ColorType::Error => c.on_error,
    };
    let branded = surface == ColorType::Primary || surface == ColorType::PrimaryVariant
        || surface == ColorType::Secondary || surface == ColorType::SecondaryVariant;
    let stroke_overlay = if branded {
        spec_overlay(bg, white, 60)
    } else {
        overlay
    };
    let stroke = if focused {
        stroke_overlay
    } else if disabled {
        spec_overlay(stroke_overlay, bg, 18)
    } else {
        spec_overlay(stroke_overlay, bg, 38)
    };
    let bg_overlay = if branded {
        white
    } else {
        overlay
    };
    let bg2 = if focused {
        spec_overlay(bg_overlay, bg, 12)
    } else if active {
        spec_overlay(bg_overlay, bg, 8)
    } else if hovered {
        if branded {
            spec_overlay(bg_overlay, bg, 12)
        } else {
            spec_overlay(bg_overlay, bg, 4)
        }
    } else if branded && disabled {
        spec_overlay(overlay, bg, 38)
    } else {
        bg
    };
    let fg = if disabled {
        spec_overlay(overlay, bg2, 38)
    } else {
        spec_overlay(overlay, bg2, 87)
    };
    (stroke, bg2, fg)
}

/// All state and methods for updating and interacting with the engine: the
/// rasterizer, the GUI interaction store, the theme and the draw settings.
#[derive(Debug)]
pub struct PixState {
    /// The rasterizer and its draw targets.
    pub data: StateData,
    /// The GUI interaction store and input snapshot.
    pub ui: UiState,
    /// The widget theme.
    pub theme: Theme,
    /// The current draw settings.
    pub settings: Settings,
    /// Saved draw settings, innermost last.
    pub setting_stack: Vec<Settings>,
    /// The cursor the widgets of this frame asked for, if any.
    pub frame_cursor: Option<crate::window::Cursor>,
}

impl PixState {
    /// The engine state's structural invariant.
    pub open spec fn wf(&self) -> bool {
        &&& self.data.wf()
        &&& self.ui.wf()
        &&& self.theme.wf()
    }

    /// `b` agrees with `a` on everything except the rasterizer's pixels,
    /// draw color and alpha mode, and the frame cursor: the interaction
    /// store, the theme, the settings and every stack are untouched — a
    /// render-only step.
    pub open spec fn same_gui(a: &PixState, b: &PixState) -> bool {
        &&& b.ui == a.ui
        &&& b.theme == a.theme
        &&& b.settings == a.settings
        &&& b.setting_stack == a.setting_stack
    }

    /// Fresh engine state for a screen of the given dimensions.
    pub fn new(screen_width: u32, screen_height: u32) -> (s: PixState)
        requires
            screen_width <= 0xffff,
            screen_height <= 0xffff,
        ensures
            s.wf(),
            s.data.screen_width == screen_width,
            s.data.screen_height == screen_height,
            s.ui.active is None,
            s.ui.focused is None,
            s.ui.hovered is None,
            s.ui.editing is None,
            s.setting_stack@.len() == 0,
            s.ui.cursor_stack@.len() == 0,
            s.ui.id_stack@.len() == 0,
            s.ui.cursor_x == s.theme.style.frame_pad_x,
            s.ui.cursor_y == s.theme.style.frame_pad_y,
    {
        let theme = Theme::dark();
        let mut ui = UiState::new();
        ui.set_cursor_pos(theme.style.frame_pad_x, theme.style.frame_pad_y);
        PixState {
            data: StateData::new(screen_width, screen_height),
            ui,
            theme,
            settings: Settings { fill: None, stroke: None },
            setting_stack: Vec::new(),
            frame_cursor: None,
        }
    }

    /// The current window title suffix.
    pub fn title<'a>(&'a self) -> (r: &'a str)
        ensures
            r@ == self.data.title@,
    {
        self.data.title.as_str()
    }

    /// Sets the window title suffix.
    pub fn set_title(&mut self, title: &str)
        ensures
            final(self).data.title@ == title@,
            *final(self) == (PixState {
                data: (StateData { title: final(self).data.title, ..old(self).data }),
                ..*old(self)
            }),
    {
        self.data.title = String::from_str(title);
    }

    /// The mouse position of this frame.
    pub fn mouse_pos(&self) -> (p: (i32, i32))
        ensures
            p == (self.ui.mouse.xpos, self.ui.mouse.ypos),
    {
        (self.ui.mouse.xpos, self.ui.mouse.ypos)
    }

    /// The mouse position of the previous frame.
    pub fn pmouse_pos(&self) -> (p: (i32, i32))
        ensures
            p == (self.ui.pmouse_x, self.ui.pmouse_y),
    {
        (self.ui.pmouse_x, self.ui.pmouse_y)
    }

    /// Whether any mouse button is held.
    pub fn mouse_pressed(&self) -> (r: bool)
        ensures
            r == (self.ui.mouse.left_down || self.ui.mouse.middle_down
                || self.ui.mouse.right_down),
    {
        self.ui.mouse.is_pressed()
    }

    /// Whether `btn` is held.
    pub fn mouse_down(&self, btn: Mouse) -> (r: bool)
        ensures
            r == self.ui.mouse.spec_is_down(btn),
    {
        self.ui.mouse.is_down(btn)
    }

    /// Whether any key is held.
    pub fn key_pressed(&self) -> (r: bool)
        ensures
            r == (self.ui.keys.pressed@.len() != 0),
    {
        self.ui.keys.is_pressed()
    }

    /// Whether `key` is held.
    pub fn key_down(&self, key: Key) -> (r: bool)
        ensures
            r == self.ui.keys.spec_is_down(key),
    {
        self.ui.keys.is_down(key)
    }

    /// Whether `keymod` is held.
    pub fn keymod_down(&self, keymod: KeyMod) -> (r: bool)
        ensures
            r == self.ui.keys.spec_mod_down(keymod),
    {
        self.ui.keys.mod_down(keymod)
    }

    /// Saves the draw settings; the matching [`PixState::pop`] restores
    /// them.
    pub fn push(&mut self)
        requires
            old(self).wf(),
        ensures
            final(self).wf(),
            *final(self) == (PixState { setting_stack: final(self).setting_stack, ..*old(self) }),
            final(self).setting_stack@ == old(self).setting_stack@.push(old(self).settings),
    {
        let s = self.settings;
        self.setting_stack.push(s);
    }

    /// Restores the innermost saved draw settings. Pushes and pops must
    /// pair up within every widget call; popping an empty stack is a
    /// programming error.
    pub fn pop(&mut self)
        requires
            old(self).wf(),
            old(self).setting_stack@.len() > 0,
        ensures
            final(self).wf(),
            *final(self) == (PixState {
                settings: old(self).setting_stack@.last(),
                setting_stack: final(self).setting_stack,
                ..*old(self)
            }),
            final(self).setting_stack@ == old(self).setting_stack@.drop_last(),
    {
        match self.setting_stack.pop() {
            Some(s) => {
                self.settings = s;
            },
            None => {},
        }
    }

    /// Stack balance: a push followed by its pop leaves the settings and
    /// the stack exactly as they were, at every nesting depth.
    pub proof fn lemma_push_pop_balance(s: PixState, pushed: PixState, popped: PixState)
        requires
            s.wf(),
            pushed == (PixState { setting_stack: pushed.setting_stack, ..s }),
            pushed.setting_stack@ == s.setting_stack@.push(s.settings),
            popped == (PixState {
                settings: pushed.setting_stack@.last(),
                setting_stack: popped.setting_stack,
                ..pushed
            }),
            popped.setting_stack@ == pushed.setting_stack@.drop_last(),
        ensures
            popped.settings == s.settings,
            popped.setting_stack@ == s.setting_stack@,
    {
        assert(pushed.setting_stack@.drop_last() =~= s.setting_stack@);
    }

    /// Sets the fill color.
    pub fn fill(&mut self, p: Pixel)
        ensures
            *final(self) == (PixState {
                settings: (Settings { fill: Some(p), ..old(self).settings }),
                ..*old(self)
            }),
    {
        self.settings.fill = Some(p);
    }

    /// Disables filling.
    pub fn no_fill(&mut self)
        ensures
            *final(self) == (PixState {
                settings: (Settings { fill: None, ..old(self).settings }),
                ..*old(self)
            }),
    {
        self.settings.fill = None;
    }

    /// Sets the stroke color.
    pub fn stroke(&mut self, p: Pixel)
        ensures
            *final(self) == (PixState {
                settings: (Settings { stroke: Some(p), ..old(self).settings }),
                ..*old(self)
            }),
    {
        self.settings.stroke = Some(p);
    }

    /// Disables stroking.
    pub fn no_stroke(&mut self)
        ensures
            *final(self) == (PixState {
                settings: (Settings { stroke: None, ..old(self).settings }),
                ..*old(self)
            }),
    {
        self.settings.stroke = None;
    }

    /// The widgets' background color.
    pub fn background_color(&self) -> (p: Pixel)
        ensures
            p == self.theme.colors.background,
    {
        self.theme.colors.background
    }

    /// The widgets' highlight color.
    pub fn highlight_color(&self) -> (p: Pixel)
        ensures
            p == self.theme.colors.highlight,
    {
        self.theme.colors.highlight
    }

    /// The widgets' muted chrome color.
    pub fn muted_color(&self) -> (p: Pixel)
        ensures
            p == self.theme.colors.muted,
    {
        self.theme.colors.muted
    }

    /// The widgets' text color.
    pub fn text_color(&self) -> (p: Pixel)
        ensures
            p == self.theme.colors.on_background,
    {
        self.theme.colors.on_background
    }

    /// Asks the frame driver to show `cursor` for this frame.
    pub fn set_frame_cursor(&mut self, cursor: crate::window::Cursor)
        ensures
            *final(self) == (PixState { frame_cursor: Some(cursor), ..*old(self) }),
    {
        self.frame_cursor = Some(cursor);
    }

    /// The pixel box `text` occupies when drawn with the current font
    /// scale: eight pixels square per character, capped at the layout
    /// range.
    pub fn size_of(&self, text: &str) -> (r: (u32, u32))
        requires
            self.wf(),
        ensures
            r.0 == vstd::math::min(8 * self.data.font_scale * text@.len(), 0x10000),
            r.1 == 8 * self.data.font_scale,
            r.0 <= 0x10000,
            r.1 <= 0x2000,
    {
        let len = text.unicode_len();
        let fs = self.data.font_scale as u64;
        let w: u64 = if len as u64 > 0x10000u64 {
            0x1_0000_0000u64
        } else {
            proof {
                assert(8 * fs * len <= 8 * 1024 * 0x10000) by (nonlinear_arith)
                    requires
                        fs <= 1024,
                        len <= 0x10000,
                ;
            }
            8u64 * fs * len as u64
        };
        proof {
            if len as u64 > 0x10000u64 {
                assert(8 * self.data.font_scale * text@.len() >= 8 * 1 * 0x10000)
                    by (nonlinear_arith)
                    requires
                        self.data.font_scale >= 1,
                        text@.len() > 0x10000,
                ;
            }
        }
        let w32: u32 = if w > 0x10000u64 {
            0x10000
        } else {
            w as u32
        };
        (w32, 8 * self.data.font_scale as u32)
    }

    /// Draws `rect` with the current draw settings: its fill color first,
    /// then its stroke color on the border. A render-only step: with
    /// wrapping off, pixels outside the rectangle's border box keep their
    /// value.
    pub fn rect(&mut self, rect: Rect) -> (r: PixResult<()>)
        requires
            old(self).wf(),
            rect.wf(),
        ensures
            final(self).wf(),
            PixState::same_gui(old(self), final(self)),
            StateData::same_but_pixels(&old(self).data, &final(self).data) || (
            final(self).data.color == old(self).settings.fill->0 || final(self).data.color == old(
                self,
            ).settings.stroke->0),
            final(self).data.spec_target().width == old(self).data.spec_target().width,
            final(self).data.spec_target().height == old(self).data.spec_target().height,
            (final(self).data.draw_target is Some <==> old(self).data.draw_target is Some),
            r is Ok,
    {
        if let Some(f) = self.settings.fill {
            self.data.set_draw_color(f);
            self.data.fill_rect(rect.x, rect.y, rect.width, rect.height);
        }
        if let Some(st) = self.settings.stroke {
            self.data.set_draw_color(st);
            if rect.width > 0 && rect.height > 0 {
                self.data.draw_rect(rect.x, rect.y, rect.width - 1, rect.height - 1);
            }
        }
        Ok(())
    }

    /// Draws `text` at the layout cursor in the current fill color (the
    /// theme's text color when no fill is set). A render-only step.
    pub fn text(&mut self, text: &str) -> (r: PixResult<()>)
        requires
            old(self).wf(),
        ensures
            final(self).wf(),
            PixState::same_gui(old(self), final(self)),
            final(self).data.spec_target().width == old(self).data.spec_target().width,
            final(self).data.spec_target().height == old(self).data.spec_target().height,
            r is Ok,
    {
        let color = match self.settings.fill {
            Some(f) => f,
            None => self.theme.colors.on_background,
        };
        self.data.set_draw_color(color);
        let (cx, cy) = self.ui.cursor_pos();
        self.data.draw_string(cx, cy, String::from_str(text));
        Ok(())
    }

    /// The colors the opacity-blend table assigns the widget `id` on
    /// `surface_color`, as `[stroke, background, foreground]`, from its
    /// hover, capture, focus and disabled state this frame.
    pub fn widget_colors(&self, id: u64, surface_color: ColorType) -> (r: [Pixel; 3])
        ensures
            ({
                let (stroke, bg, fg) = spec_widget_colors(
                    self.ui.spec_is_focused(id),
                    self.ui.spec_is_active(id),
                    self.ui.spec_is_hovered(id),
                    self.ui.disabled,
                    self.theme.colors,
                    surface_color,
                );
                r@ == seq![stroke, bg, fg]
            }),
    {
        let focused = self.ui.is_focused(id);
        let active = self.ui.is_active(id);
        let hovered = self.ui.is_hovered(id);
        let disabled = self.ui.disabled;
        let c = self.theme.colors;
        let white = Pixel::rgb(255, 255, 255);

        let bg = match surface_color {
            ColorType::Background => c.background,
            ColorType::Surface => c.surface,
            ColorType::Primary => c.primary,
            ColorType::PrimaryVariant => c.primary_variant,
            ColorType::Secondary => c.secondary,
            ColorType::SecondaryVariant => c.secondary_variant,
            ColorType::Error => c.error,
        };
        let overlay = match surface_color {
            ColorType::Background => c.on_background,
            ColorType::Surface => c.on_surface,
            ColorType::Primary => c.on_primary,
            ColorType::PrimaryVariant => c.on_primary,
            ColorType::Secondary => c.on_secondary,
            ColorType::SecondaryVariant => c.on_secondary,
            ColorType::Error => c.on_error,
        };
        let branded = matches!(
            surface_color,
            ColorType::Primary | ColorType::PrimaryVariant | ColorType::Secondary
                | ColorType::SecondaryVariant
        );

        let stroke_overlay = if branded {
            bg.blended(white, 60)
        } else {
            overlay
        };
        let stroke = if focused {
            stroke_overlay
        } else if disabled {
            stroke_overlay.blended(bg, 18)
        } else {
            stroke_overlay.blended(bg, 38)
        };

        let bg_overlay = if branded {
            white
        } else {
            overlay
        };
        let bg = if focused {
            bg_overlay.blended(bg, 12)
        } else if active {
            bg_overlay.blended(bg, 8)
        } else if hovered {
            if branded {
                bg_overlay.blended(bg, 12)
            } else {
                bg_overlay.blended(bg, 4)
            }
        } else if branded && disabled {
            overlay.blended(bg, 38)
        } else {
            bg
        };

        let fg = if disabled {
            overlay.blended(bg, 38)
        } else {
            overlay.blended(bg, 87)
        };

        let out = [stroke, bg, fg];
        proof {
            assert(out@ =~= seq![stroke, bg, fg]);
        }
        out
    }

    /// Overrides the width of the next widget.
    pub fn next_width(&mut self, width: u32)
        ensures
            *final(self) == (PixState { ui: final(self).ui, ..*old(self) }),
            final(self).ui == (UiState { next_width: Some(width), ..old(self).ui }),
    {
        self.ui.next_width = Some(width);
    }

    /// Moves the layout cursor past `rect` plus the vertical item padding,
    /// back at the rectangle's left edge, ready for the next widget.
    pub fn advance_cursor(&mut self, rect: Rect)
        requires
            old(self).wf(),
            rect.wf(),
        ensures
            final(self).wf(),
            *final(self) == (PixState { ui: final(self).ui, ..*old(self) }),
            final(self).ui == (UiState {
                cursor_x: final(self).ui.cursor_x,
                cursor_y: final(self).ui.cursor_y,
                ..old(self).ui
            }),
            final(self).ui.cursor_x == vstd::math::max(
                -0x10000,
                vstd::math::min(rect.x as int, 0x10000),
            ),
            final(self).ui.cursor_y == vstd::math::max(
                -0x10000,
                vstd::math::min(
                    rect.y + rect.height + old(self).theme.style.item_pad_y,
                    0x10000,
                ),
            ),
    {
        let ny = rect.y + rect.height + self.theme.style.item_pad_y;
        self.ui.set_cursor_pos(rect.x, ny);
    }
}

} // verus!
