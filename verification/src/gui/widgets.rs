//! The widget surface: buttons, checkboxes, and the slider and drag
//! widgets of the submodule.

use vstd::prelude::*;
use vstd::string::StringSliceAdditionalSpecFns;
use crate::gui::state::{spec_element_id, label_text};
use crate::gui::theme::ColorType;
use crate::gui::{clamp_i32, Rect};
use crate::gui::scroll::spec_stacks_balanced;
use crate::state::{PixResult, PixState};

pub mod slider;

verus! {

/// The screen rectangle a standard one-line widget occupies: at the
/// layout cursor, `w` wide and one text row plus padding high, clamped
/// into the drawable range.
pub open spec fn spec_widget_rect(
    pos_x: int,
    pos_y: int,
    w: int,
    font_size: int,
    ipad_y: int,
) -> Rect {
    Rect {
        x: vstd::math::max(-0x10000, vstd::math::min(pos_x, 0x10000)) as i32,
        y: vstd::math::max(-0x10000, vstd::math::min(pos_y, 0x10000)) as i32,
        width: vstd::math::max(1, vstd::math::min(w, 0x8000)) as i32,
        height: vstd::math::max(1, vstd::math::min(font_size + 2 * ipad_y, 0x1000)) as i32,
    }
}

impl PixState {
    /// The screen rectangle of a standard one-line widget, from the
    /// layout cursor and the theme.
    pub(crate) fn widget_rect(&self, pos_x: i32, pos_y: i32, w: i64) -> (r: Rect)
        requires
            self.wf(),
        ensures
            r == spec_widget_rect(
                pos_x as int,
                pos_y as int,
                w as int,
                self.theme.font_size as int,
                self.theme.style.item_pad_y as int,
            ),
            r.wf(),
            -0x10000 <= r.x <= 0x10000,
            -0x10000 <= r.y <= 0x10000,
            1 <= r.width <= 0x8000,
            1 <= r.height <= 0x1000,
    {
        let wi: i32 = if w < 1 {
            1
        } else if w > 0x8000 {
            0x8000
        } else {
            w as i32
        };
        let h = clamp_i32(self.theme.font_size + 2 * self.theme.style.item_pad_y, 1, 0x1000);
        Rect {
            x: clamp_i32(pos_x, -0x10000, 0x10000),
            y: clamp_i32(pos_y, -0x10000, 0x10000),
            width: wi,
            height: h,
        }
    }

    /// The width a widget should take: the pending width override if one
    /// was set (consuming it), else the draw target's width less the
    /// horizontal frame padding.
    pub(crate) fn take_next_width(&mut self) -> (w: i64)
        requires
            old(self).wf(),
        ensures
            final(self).wf(),
            *final(self) == (PixState { ui: final(self).ui, ..*old(self) }),
            final(self).ui == (crate::gui::state::UiState { next_width: None, ..old(self).ui }),
            old(self).ui.next_width matches Some(nw) ==> w == nw,
            old(self).ui.next_width is None ==> w == old(self).data.spec_target().width - 2
                * old(self).theme.style.frame_pad_x,
    {
        match self.ui.next_width {
            Some(nw) => {
                self.ui.next_width = None;
                nw as i64
            },
            None => self.data.target_width() as i64 - 2 * self.theme.style.frame_pad_x as i64,
        }
    }

    /// Draws a button with `label` and reports whether it was clicked:
    /// hovered with the primary button released this frame while the
    /// button held the capture.
    pub fn button(&mut self, label: &str) -> (r: PixResult<bool>)
        requires
            old(self).wf(),
        ensures
            final(self).wf(),
            spec_stacks_balanced(old(self), final(self)),
            ({
                let id = spec_element_id(label.spec_bytes(), old(self).ui.id_stack@);
                let wrect = spec_widget_rect(
                    old(self).ui.cursor_x as int,
                    old(self).ui.cursor_y as int,
                    (match old(self).ui.next_width {
                        Some(nw) => nw as int,
                        None => old(self).data.spec_target().width - 2 * old(
                            self,
                        ).theme.style.frame_pad_x,
                    }),
                    old(self).theme.font_size as int,
                    old(self).theme.style.item_pad_y as int,
                );
                let inside = wrect.spec_contains(
                    old(self).ui.mouse.xpos as int,
                    old(self).ui.mouse.ypos as int,
                );
                let hovered_now = crate::gui::state::spec_step_hover(
                    old(self).ui.hovered,
                    old(self).ui.active,
                    inside,
                    id,
                );
                &&& final(self).ui.hovered == hovered_now
                &&& final(self).ui.focused == crate::gui::state::spec_step_focus(
                    old(self).ui.focused,
                    old(self).ui.active,
                    id,
                )
                &&& final(self).ui.active == crate::gui::state::spec_step_active(
                    old(self).ui.active,
                    hovered_now,
                    old(self).ui.mouse.left_down,
                    id,
                )
                &&& r == Ok::<bool, crate::state::PixError>(
                    old(self).ui.spec_is_active(id) && inside && !old(self).ui.mouse.left_down,
                )
            }),
    {
        let ghost orig_stack = self.setting_stack@;
        let ghost orig_cursors = self.ui.cursor_stack@;
        let s = self;
        let id = s.ui.get_id(label);
        let vis = label_text(label);
        let (pos_x, pos_y) = s.ui.cursor_pos();
        let w = s.take_next_width();
        let button = s.widget_rect(pos_x, pos_y, w);

        let hovered = s.ui.try_hover(id, button);
        let focused = s.ui.try_focus(id);
        let active = s.ui.is_active(id);

        s.push();
        s.ui.push_cursor();

        // Render
        let colors = s.widget_colors(id, ColorType::Primary);
        s.stroke(colors[0]);
        s.fill(colors[1]);
        let _ = s.rect(button);
        if hovered {
            s.set_frame_cursor(crate::window::Cursor::hand());
        }
        s.fill(colors[2]);
        s.ui.set_cursor_pos(
            button.x + s.theme.style.item_pad_x,
            button.y + s.theme.style.item_pad_y,
        );
        let _ = s.text(vis);

        s.ui.pop_cursor();
        s.pop();
        proof {
            assert(s.setting_stack@ =~= orig_stack);
            assert(s.ui.cursor_stack@ =~= orig_cursors);
        }

        // A click completes when the capture owner sees the button go up
        // while still hovered.
        let clicked = active && hovered && !s.ui.mouse.is_down(crate::event::Mouse::Left);
        s.ui.handle_events(id);
        s.advance_cursor(button);
        Ok(clicked)
    }

    /// Draws a checkbox with `label` bound to `checked`; a click toggles
    /// the binding and reports a change.
    pub fn checkbox(&mut self, label: &str, checked: &mut bool) -> (r: PixResult<bool>)
        requires
            old(self).wf(),
        ensures
            final(self).wf(),
            spec_stacks_balanced(old(self), final(self)),
            ({
                let id = spec_element_id(label.spec_bytes(), old(self).ui.id_stack@);
                let side = vstd::math::max(
                    1,
                    vstd::math::min(old(self).theme.font_size as int, 0x1000),
                );
                let brect = Rect {
                    x: vstd::math::max(
                        -0x10000,
                        vstd::math::min(old(self).ui.cursor_x as int, 0x10000),
                    ) as i32,
                    y: vstd::math::max(
                        -0x10000,
                        vstd::math::min(old(self).ui.cursor_y as int, 0x10000),
                    ) as i32,
                    width: side as i32,
                    height: side as i32,
                };
                let inside = brect.spec_contains(
                    old(self).ui.mouse.xpos as int,
                    old(self).ui.mouse.ypos as int,
                );
                let hovered_now = crate::gui::state::spec_step_hover(
                    old(self).ui.hovered,
                    old(self).ui.active,
                    inside,
                    id,
                );
                let clicked = old(self).ui.spec_is_active(id) && inside && !old(
                    self,
                ).ui.mouse.left_down;
                &&& final(self).ui.hovered == hovered_now
                &&& final(self).ui.focused == crate::gui::state::spec_step_focus(
                    old(self).ui.focused,
                    old(self).ui.active,
                    id,
                )
                &&& final(self).ui.active == crate::gui::state::spec_step_active(
                    old(self).ui.active,
                    hovered_now,
                    old(self).ui.mouse.left_down,
                    id,
                )
                &&& r == Ok::<bool, crate::state::PixError>(clicked)
                &&& *final(checked) == (if clicked {
                    !*old(checked)
                } else {
                    *old(checked)
                })
            }),
    {
        let ghost orig_stack = self.setting_stack@;
        let ghost orig_cursors = self.ui.cursor_stack@;
        let s = self;
        let id = s.ui.get_id(label);
        let vis = label_text(label);
        let (pos_x, pos_y) = s.ui.cursor_pos();
        let box_side = clamp_i32(s.theme.font_size, 1, 0x1000);
        let checkbox = Rect::new(
            clamp_i32(pos_x, -0x10000, 0x10000),
            clamp_i32(pos_y, -0x10000, 0x10000),
            box_side,
            box_side,
        );

        let hovered = s.ui.try_hover(id, checkbox);
        let focused = s.ui.try_focus(id);
        let active = s.ui.is_active(id);

        s.push();
        s.ui.push_cursor();

        let colors = s.widget_colors(id, ColorType::Background);
        s.stroke(colors[0]);
        if *checked {
            s.fill(s.highlight_color());
        } else {
            s.fill(colors[1]);
        }
        let _ = s.rect(checkbox);
        s.fill(colors[2]);
        s.ui.set_cursor_pos(
            checkbox.x + box_side + s.theme.style.item_pad_x,
            checkbox.y,
        );
        let _ = s.text(vis);

        s.ui.pop_cursor();
        s.pop();
        proof {
            assert(s.setting_stack@ =~= orig_stack);
            assert(s.ui.cursor_stack@ =~= orig_cursors);
        }

        let clicked = active && hovered && !s.ui.mouse.is_down(crate::event::Mouse::Left);
        if clicked {
            *checked = !*checked;
        }
        s.ui.handle_events(id);
        s.advance_cursor(checkbox);
        Ok(clicked)
    }
}

} // verus!
