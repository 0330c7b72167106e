//! The select list: a scrollable list of rows with one selected entry.

use vstd::prelude::*;
use crate::event::{Key, Mouse};
use crate::gui::scroll::{spec_stacks_balanced, SCROLL_SIZE};
use crate::gui::state::{spec_rect_id, spec_step_focus, UiState};
use crate::gui::{clamp_i32, Rect};
use crate::state::{PixResult, PixState};

verus! {

/// Where the persisted scroll offset lands so that the selected row stays
/// visible: a selection above the window snaps the window to its top, one
/// below snaps it to its bottom, and one inside leaves it alone.
pub open spec fn spec_snap_scroll(sel_y: int, line_h: int, scroll_y: int, content_h: int) -> int {
    if sel_y < scroll_y {
        sel_y
    } else if sel_y + line_h > scroll_y + content_h {
        sel_y - (content_h - line_h)
    } else {
        scroll_y
    }
}

/// Select-list scroll containment: after a snap the selected row lies
/// fully inside the viewport window, wherever the window stood before —
/// so any run of selection moves keeps the selection visible.
pub proof fn lemma_select_scroll_containment(
    sel_y: int,
    line_h: int,
    scroll_y: int,
    content_h: int,
)
    requires
        0 < line_h <= content_h,
    ensures
        spec_snap_scroll(sel_y, line_h, scroll_y, content_h) <= sel_y,
        sel_y + line_h <= spec_snap_scroll(sel_y, line_h, scroll_y, content_h) + content_h,
{
}

/// Where an arrow key moves the selection over `n` rows: Down saturates at
/// the last row, Up at the first, and either arrow turns an empty
/// selection into the first row. Any other key leaves it alone.
pub open spec fn spec_move_selection(sel: Option<usize>, key: Option<Key>, n: int) -> Option<
    usize,
> {
    if key == Some(Key::Up) {
        match sel {
            Some(k) => Some(
                (if k > 0 {
                    k - 1
                } else {
                    0int
                }) as usize,
            ),
            None => Some(0 as usize),
        }
    } else if key == Some(Key::Down) {
        match sel {
            Some(k) => Some(
                (if n == 0 {
                    0int
                } else if k >= n - 1 {
                    n - 1
                } else {
                    k + 1
                }) as usize,
            ),
            None => Some(0 as usize),
        }
    } else {
        sel
    }
}

/// The row of an `n`-row list under the pointer at `(mx, my)`, seen
/// through `rect` scrolled `sy` pixels down with rows `line` pixels tall:
/// the pointer must lie inside the content area left of the scrollbar,
/// and the row must be loaded (within a row of slack of the viewport).
pub open spec fn spec_row_hit(
    rect: Rect,
    line: int,
    sy: int,
    mx: int,
    my: int,
    n: int,
) -> Option<int> {
    let skip = sy / line;
    let shown = rect.height as int / line;
    let q = (my - rect.y + sy % line) / line;
    let i = skip + q;
    if rect.x <= mx < rect.x + rect.width - SCROLL_SIZE && rect.y <= my < rect.y + rect.height
        && i < n && q <= shown + 1 {
        Some(i)
    } else {
        None
    }
}

/// The vertical scrollbar a select list over `rect` shows at its right
/// edge.
pub open spec fn spec_list_bar(rect: Rect) -> Rect {
    Rect {
        x: (rect.x + rect.width - SCROLL_SIZE) as i32,
        y: rect.y,
        width: SCROLL_SIZE as i32,
        height: rect.height,
    }
}

/// The row height of a select list: the item height plus the theme
/// padding above and below.
pub open spec fn spec_list_line(s: &PixState, item_height: u32) -> int {
    item_height + 2 * s.theme.padding
}

/// The row a select list call finds under the pointer, if any.
pub open spec fn spec_list_hit(s: &PixState, rect: Rect, item_height: u32, n: int) -> Option<
    int,
> {
    let id = spec_rect_id(rect, s.ui.id_stack@);
    let sy = vstd::math::max(0, vstd::math::min(s.ui.spec_scroll(id).1 as int, 0x7fff_0000));
    spec_row_hit(
        rect,
        spec_list_line(s, item_height),
        sy,
        s.ui.mouse.xpos as int,
        s.ui.mouse.ypos as int,
        n,
    )
}

/// The selection a select list call ends with: a row clicked while the
/// list holds the capture, then an arrow move when the list has focus.
pub open spec fn spec_list_selection(
    s: &PixState,
    rect: Rect,
    item_height: u32,
    sel: Option<usize>,
    n: int,
) -> Option<usize> {
    let id = spec_rect_id(rect, s.ui.id_stack@);
    let clicking = s.ui.spec_is_active(id) && s.ui.mouse.left_down;
    let sel1 = (if clicking {
        match spec_list_hit(s, rect, item_height, n) {
            Some(h) => Some(h as usize),
            None => sel,
        }
    } else {
        sel
    });
    if spec_step_focus(s.ui.focused, s.ui.active, id) == Some(id) {
        spec_move_selection(sel1, s.ui.keys.entered, n)
    } else {
        sel1
    }
}

impl PixState {
    /// Draws a select list over `rect` labeled `label`, showing `items`
    /// as rows `item_height` pixels tall, with `selected` bound to the
    /// chosen row.
    ///
    /// Rows outside the scrolled viewport are neither drawn nor
    /// hit-tested. While the list holds the capture with the primary
    /// button down, the row under the pointer becomes the selection. With
    /// keyboard focus, Up and Down move the selection saturating at the
    /// ends, and the persisted scroll offset snaps so the selection stays
    /// inside the viewport: to its top edge when it moved above, to its
    /// bottom edge when it moved below.
    #[verifier::rlimit(100)]
    #[verifier::loop_isolation(false)]
    pub fn select_list(
        &mut self,
        rect: Rect,
        label: &str,
        items: &Vec<String>,
        item_height: u32,
        selected: &mut Option<usize>,
    ) -> (r: PixResult<()>)
        requires
            old(self).wf(),
            rect.wf(),
            -0x18000 <= rect.x <= 0x18000,
            -0x18000 <= rect.y <= 0x18000,
            SCROLL_SIZE + 5 <= rect.width <= 0x10000,
            1 <= rect.height <= 0x10000,
            1 <= item_height <= 0x300,
            items@.len() * (item_height + 2 * old(self).theme.padding) <= 0x7fff_ffff,
            *old(selected) matches Some(k) ==> k < items@.len(),
        ensures
            final(self).wf(),
            r is Ok,
            spec_stacks_balanced(old(self), final(self)),
            *final(selected) matches Some(i) ==> i < items@.len() || (items@.len() == 0 && i
                == 0),
            *final(selected) == spec_list_selection(
                old(self),
                rect,
                item_height,
                *old(selected),
                items@.len() as int,
            ),
            ({
                let id = spec_rect_id(rect, old(self).ui.id_stack@);
                let n = items@.len() as int;
                let line_h = spec_list_line(old(self), item_height);
                let content_h = rect.height as int;
                let key = old(self).ui.keys.entered;
                let focused_now = spec_step_focus(old(self).ui.focused, old(self).ui.active, id)
                    == Some(id);
                let moved = focused_now && (key == Some(Key::Up) || key == Some(Key::Down));
                let bar_id = spec_rect_id(spec_list_bar(rect), old(self).ui.id_stack@);
                let sel2 = spec_list_selection(
                    old(self),
                    rect,
                    item_height,
                    *old(selected),
                    n,
                );
                moved && n > 0 && line_h <= content_h && !old(self).ui.spec_is_active(bar_id)
                    && old(self).ui.focused != Some(bar_id) && !spec_list_bar(
                    rect,
                ).spec_contains(
                    old(self).ui.mouse.xpos as int,
                    old(self).ui.mouse.ypos as int,
                ) ==> {
                    let sel_y = (match sel2 {
                        Some(i) => i as int,
                        None => 0,
                    }) * line_h;
                    &&& final(self).ui.spec_scroll(id).1 == spec_snap_scroll(
                        sel_y,
                        line_h,
                        old(self).ui.spec_scroll(id).1 as int,
                        content_h,
                    )
                    &&& final(self).ui.spec_scroll(id).1 <= sel_y
                    &&& sel_y + line_h <= final(self).ui.spec_scroll(id).1 + content_h
                }
            }),
    {
        let ghost orig_stack = self.setting_stack@;
        let s = self;
        let id = UiState::rect_id(rect, &s.ui.id_stack);

        s.push();

        let pad = s.theme.padding;
        let line_height: i32 = item_height as i32 + 2 * pad;
        let ghost len0: int = items@.len() as int;
        proof {
            assert(line_height == item_height + 2 * old(self).theme.padding);
            assert(len0 * (item_height + 2 * old(self).theme.padding) <= 0x7fff_ffff);
        }
        let content = rect;
        let bar = Rect::new(rect.x + rect.width - SCROLL_SIZE, rect.y, SCROLL_SIZE, rect.height);
        let n = items.len();
        let total_height: i32 = mul_len_line(n, line_height, Ghost(len0));
        let mut scroll = s.ui.scroll(id);
        let ghost clicking = s.ui.spec_is_active(id) && s.ui.mouse.left_down;

        // Check hover/active/keyboard focus
        let hovered = s.ui.try_hover(id, content);
        let focused = s.ui.try_focus(id);

        // Label
        if label.len() != 0 {
            let tc = s.text_color();
            s.fill(tc);
            s.ui.push_cursor();
            s.ui.set_cursor_pos(rect.x, rect.y - s.theme.font_size - pad);
            let _ = s.text(label);
            s.ui.pop_cursor();
        }

        // Background
        let bgc = s.background_color();
        s.fill(bgc);
        let mc = s.muted_color();
        s.stroke(mc);
        let _ = s.rect(content);

        // Rows within the scrolled viewport, plus a row of slack each side
        let sy = clamp_i32(scroll.1, 0, 0x7fff_0000);
        proof {
            assert(0 <= sy / line_height <= 0x7fff_0000) by (nonlinear_arith)
                requires
                    0 <= sy <= 0x7fff_0000,
                    line_height >= 1,
            ;
            assert(0 <= content.height / line_height <= 0x10000) by (nonlinear_arith)
                requires
                    0 <= content.height <= 0x10000,
                    line_height >= 1,
            ;
            vstd::arithmetic::div_mod::lemma_fundamental_div_mod(
                content.height as int,
                line_height as int,
            );
            vstd::arithmetic::div_mod::lemma_mod_bound(content.height as int, line_height as int);
            vstd::arithmetic::div_mod::lemma_mod_bound(sy as int, line_height as int);
        }
        let skip: usize = (sy / line_height) as usize;
        let shown: usize = (content.height / line_height) as usize;
        let ghost hit = spec_row_hit(
            rect,
            line_height as int,
            sy as int,
            s.ui.mouse.xpos as int,
            s.ui.mouse.ypos as int,
            len0,
        );
        let ghost sel0 = *selected;
        let ghost stack1 = s.setting_stack@;
        let mut i: usize = skip;
        while i < n && i <= skip + shown + 1
            invariant
                s.wf(),
                s.setting_stack@ == stack1,
                s.ui.cursor_stack@ == old(self).ui.cursor_stack@,
                s.ui.id_stack@ == old(self).ui.id_stack@,
                s.ui.editing == old(self).ui.editing,
                s.ui.keys == old(self).ui.keys,
                s.ui.mouse == old(self).ui.mouse,
                s.ui.focused == spec_step_focus(old(self).ui.focused, old(self).ui.active, id),
                s.ui.active == old(self).ui.active,
                s.ui.scroll_map@ == old(self).ui.scroll_map@,
                skip <= i,
                clicking ==> *selected == (match hit {
                    Some(h) => if h < i {
                        Some(h as usize)
                    } else {
                        sel0
                    },
                    None => sel0,
                }),
                !clicking ==> *selected == sel0,
                *selected matches Some(k) ==> k < n || Some(k) == sel0,
                s.theme == old(self).theme,
            decreases n - i,
        {
            proof {
                assert((i - skip) * line_height <= (shown + 2) * line_height && 0 <= (i - skip)
                    * line_height) by (nonlinear_arith)
                    requires
                        skip <= i,
                        i <= skip + shown + 1,
                        1 <= line_height,
                ;
                assert((shown + 2) * line_height == shown * line_height + 2 * line_height)
                    by (nonlinear_arith);
                vstd::arithmetic::div_mod::lemma_fundamental_div_mod(
                    content.height as int,
                    line_height as int,
                );
                vstd::arithmetic::div_mod::lemma_mod_bound(
                    content.height as int,
                    line_height as int,
                );
                assert(shown * line_height == line_height * (content.height as int
                    / line_height as int)) by (nonlinear_arith)
                    requires
                        shown == content.height as int / line_height as int,
                ;
                assert(shown * line_height <= content.height);
                assert(i < 0x7fff_ffff) by (nonlinear_arith)
                    requires
                        i < len0,
                        len0 * line_height <= 0x7fff_ffff,
                        line_height >= 1,
                ;
            }
            let y = content.y + (i as i32 - skip as i32) * line_height - (sy % line_height);
            let row = Rect::new(
                content.x,
                clamp_i32(y, -0x30000, 0x30000),
                content.width - SCROLL_SIZE,
                line_height,
            );
            proof {
                assert(row.y == y);
            }
            let row_visible = y + line_height > content.y && y < content.y + content.height;
            let over = row_visible && row.contains_point(s.ui.mouse.xpos, s.ui.mouse.ypos)
                && s.ui.mouse.ypos >= content.y && s.ui.mouse.ypos < content.y + content.height;
            proof {
                let mxi = s.ui.mouse.xpos as int;
                let myi = s.ui.mouse.ypos as int;
                let u = myi - rect.y + (sy as int) % (line_height as int);
                if over {
                    // The pointer pins this row exactly.
                    assert((i - skip) * line_height == line_height as int * (i - skip))
                        by (nonlinear_arith);
                    vstd::arithmetic::div_mod::lemma_fundamental_div_mod_converse(
                        u,
                        line_height as int,
                        i - skip,
                        myi - y,
                    );
                    assert(hit == Some(i as int));
                } else {
                    if hit == Some(i as int) {
                        // The hit row is loaded, under the pointer and
                        // visible; its test cannot have failed.
                        let q = u / (line_height as int);
                        vstd::arithmetic::div_mod::lemma_fundamental_div_mod(
                            u,
                            line_height as int,
                        );
                        vstd::arithmetic::div_mod::lemma_mod_bound(u, line_height as int);
                        assert(skip == sy as int / line_height as int);
                        assert(i as int == sy as int / line_height as int + q);
                        assert(q == i - skip);
                        assert(line_height as int * q == (i - skip) * line_height)
                            by (nonlinear_arith)
                            requires
                                q == i - skip,
                        ;
                        assert(y <= myi < y + line_height);
                        assert(false);
                    }
                }
            }
            if over {
                s.set_frame_cursor(crate::window::Cursor::hand());
                if s.ui.is_active(id) && s.ui.mouse.is_down(Mouse::Left) {
                    *selected = Some(i);
                }
            }
            let is_sel = match *selected {
                Some(k) => k == i,
                None => false,
            };
            if row_visible {
                s.push();
                if is_sel {
                    s.no_stroke();
                    let hc = s.highlight_color();
                    s.fill(hc);
                    let _ = s.rect(row);
                    s.fill(crate::pixel::Pixel::rgb(0, 0, 0));
                } else {
                    s.fill(crate::pixel::Pixel::rgb(255, 255, 255));
                }
                let ghost cstack = s.ui.cursor_stack@;
                s.ui.push_cursor();
                s.ui.set_cursor_pos(row.x + pad, row.y + pad);
                let _ = s.text(items[i].as_str());
                s.ui.pop_cursor();
                s.pop();
                proof {
                    assert(s.setting_stack@ =~= stack1);
                    assert(s.ui.cursor_stack@ =~= cstack);
                }
            }
            i = i + 1;
        }
        proof {
            if clicking && hit is Some {
                assert(hit->0 < i);
            }
        }

        // Scrollbar for content taller than the viewport
        if total_height > content.height {
            let max_scroll = total_height - content.height;
            let mut scroll_y = scroll.1;
            let scrolled = s.scrollbar(
                bar,
                max_scroll as u32,
                &mut scroll_y,
                crate::gui::Direction::Vertical,
            );
            match scrolled {
                Ok(true) => {
                    scroll.1 = scroll_y;
                    s.ui.set_scroll(id, scroll.0, scroll.1);
                },
                _ => (),
            }
        }

        // Keyboard navigation with snap-to-view scrolling
        let mut moved = false;
        if focused {
            match s.ui.key_entered() {
                Some(Key::Up) => {
                    *selected = match *selected {
                        Some(k) => Some(
                            if k > 0 {
                                k - 1
                            } else {
                                0
                            },
                        ),
                        None => Some(0),
                    };
                    moved = true;
                },
                Some(Key::Down) => {
                    *selected = match *selected {
                        Some(k) => Some(
                            if n == 0 {
                                0
                            } else if k >= n - 1 {
                                n - 1
                            } else {
                                k + 1
                            },
                        ),
                        None => Some(0),
                    };
                    moved = true;
                },
                _ => (),
            }
        }
        if moved && n > 0 && line_height <= content.height {
            let sel: usize = match *selected {
                Some(k) => k,
                None => 0,
            };
            proof {
                assert(sel * line_height <= n * line_height) by (nonlinear_arith)
                    requires
                        0 <= sel <= n,
                        line_height >= 1,
                ;
            }
            let sel_y: i32 = mul_len_line(sel, line_height, Ghost(len0));
            let snapped = if sel_y < scroll.1 {
                sel_y
            } else if sel_y as i64 + line_height as i64 > scroll.1 as i64
                + content.height as i64 {
                sel_y - (content.height - line_height)
            } else {
                scroll.1
            };
            scroll.1 = snapped;
            s.ui.set_scroll(id, scroll.0, scroll.1);
            proof {
                lemma_select_scroll_containment(
                    sel * line_height,
                    line_height as int,
                    old(self).ui.spec_scroll(id).1 as int,
                    content.height as int,
                );
            }
        }
        s.ui.handle_events(id);

        s.pop();
        proof {
            assert(s.setting_stack@ =~= orig_stack);
        }
        Ok(())
    }
}

/// `count * line` within the `i32` range the caller established.
fn mul_len_line(count: usize, line: i32, Ghost(n): Ghost<int>) -> (r: i32)
    requires
        0 <= count <= n,
        1 <= line <= 0x4000,
        n * line <= 0x7fff_ffff,
    ensures
        r == count * line,
        0 <= r <= 0x7fff_ffff,
{
    proof {
        assert(0 <= count * line <= n * line) by (nonlinear_arith)
            requires
                0 <= count <= n,
                1 <= line,
        ;
        assert(count <= 0x7fff_ffff) by (nonlinear_arith)
            requires
                0 <= count,
                1 <= line,
                count * line <= 0x7fff_ffff,
        ;
    }
    count as i32 * line
}

} // verus!
