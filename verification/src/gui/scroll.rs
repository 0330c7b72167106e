//! Scrollbar widgets and mouse-wheel scrolling for scrollable regions.

use vstd::prelude::*;
use crate::gui::{clamp_i32, clamp_i64, mul_div, Direction, Rect};
use crate::gui::state::UiState;
use crate::event::Key;
use crate::state::{PixResult, PixState};

verus! {

/// The smallest thumb a scrollbar draws, in pixels.
pub const THUMB_MIN: i32 = 10;

/// The breadth of a scrollbar, in pixels.
pub const SCROLL_SIZE: i32 = 12;

/// How many value units one scroll step moves.
pub const SCROLL_SPEED: i32 = 3;

/// A rectangle a scrollbar accepts: well-formed, non-empty and placed so
/// that every derived thumb coordinate stays drawable.
pub open spec fn spec_scroll_rect_ok(rect: Rect) -> bool {
    &&& rect.wf()
    &&& -0x28800 <= rect.x <= 0x28800
    &&& -0x28800 <= rect.y <= 0x28800
    &&& 1 <= rect.width
    &&& 1 <= rect.height
}

/// A scroll offset nudged by wheel motion `rel` at the scroll speed,
/// clamped to `[0, maxv]`.
pub open spec fn spec_wheel_scroll(v: int, rel: int, maxv: int) -> int {
    vstd::math::max(0, vstd::math::min(maxv, v - 3 * rel))
}

/// The value a captured scrollbar drags to: the pointer's offset across
/// the track, clamped to it, scaled to `[0, max]`.
pub open spec fn spec_scrollbar_drag(
    mouse: int,
    origin: int,
    extent: int,
    max: int,
) -> int {
    let m = vstd::math::max(0, vstd::math::min(mouse - origin, extent));
    (m * max) / extent
}

/// A widget call that leaves every stack as it found it: the style stack,
/// the saved cursors and the identifier stack.
pub open spec fn spec_stacks_balanced(a: &PixState, b: &PixState) -> bool {
    &&& b.setting_stack@ == a.setting_stack@
    &&& b.ui.cursor_stack@ == a.ui.cursor_stack@
    &&& b.ui.id_stack@ == a.ui.id_stack@
}

impl PixState {
    /// Draws a scrollbar over `rect` bound to `value` within `[0, max]`
    /// and resolves its input, reporting whether the value changed.
    ///
    /// The bound value is first clamped to `[0, max]`. While the
    /// scrollbar holds the capture the value follows the pointer
    /// proportionally across the track; a frame in which the scrollbar is
    /// neither captured, hovered with wheel motion, nor focused with an
    /// arrow key entered leaves the clamped value unchanged and reports
    /// no change.
    pub fn scrollbar(&mut self, rect: Rect, max: u32, value: &mut i32, dir: Direction) -> (r:
        PixResult<bool>)
        requires
            old(self).wf(),
            spec_scroll_rect_ok(rect),
            1 <= max <= 0x7fff_ffff,
        ensures
            final(self).wf(),
            r is Ok,
            spec_stacks_balanced(old(self), final(self)),
            final(self).ui.editing == old(self).ui.editing,
            final(self).ui.edit_text == old(self).ui.edit_text,
            final(self).ui.edit_done == old(self).ui.edit_done,
            final(self).ui.mouse == old(self).ui.mouse,
            final(self).ui.keys == old(self).ui.keys,
            final(self).ui.scroll_map@ == old(self).ui.scroll_map@,
            0 <= *final(value) <= max,
            ({
                let id = crate::gui::state::spec_rect_id(rect, old(self).ui.id_stack@);
                let v0 = vstd::math::max(0, vstd::math::min(*old(value) as int, max as int));
                let was_active = old(self).ui.spec_is_active(id);
                let inside = rect.spec_contains(
                    old(self).ui.mouse.xpos as int,
                    old(self).ui.mouse.ypos as int,
                );
                let hovered_now = crate::gui::state::spec_step_hover(
                    old(self).ui.hovered,
                    old(self).ui.active,
                    inside,
                    id,
                );
                &&& final(self).ui.hovered == hovered_now
                &&& final(self).ui.focused == crate::gui::state::spec_step_focus(
                    old(self).ui.focused,
                    old(self).ui.active,
                    id,
                )
                &&& final(self).ui.active == crate::gui::state::spec_step_active(
                    old(self).ui.active,
                    hovered_now,
                    old(self).ui.mouse.left_down,
                    id,
                )
                &&& (was_active && dir == Direction::Vertical ==> *final(value)
                    == spec_scrollbar_drag(
                    old(self).ui.mouse.ypos as int,
                    rect.y as int,
                    rect.height as int,
                    max as int,
                ))
                &&& (was_active && dir == Direction::Horizontal ==> *final(value)
                    == spec_scrollbar_drag(
                    old(self).ui.mouse.xpos as int,
                    rect.x as int,
                    rect.width as int,
                    max as int,
                ))
                &&& (!was_active && !inside && old(self).ui.focused != Some(id)
                    ==> *final(value) == v0)
                &&& (r == Ok::<bool, crate::state::PixError>(*final(value) != v0))
            }),
    {
        let ghost orig_stack = self.setting_stack@;
        let s = self;
        let id = UiState::rect_id(rect, &s.ui.id_stack);

        // Check hover/active/keyboard focus
        let hovered = s.ui.try_hover(id, rect);
        let focused = s.ui.try_focus(id);
        let disabled = s.ui.disabled;
        let active = s.ui.is_active(id);

        s.push();

        // Clamp value
        let maxi = max as i32;
        *value = clamp_i32(*value, 0, maxi);
        let ghost v0 = *value as int;

        // Scroll region
        s.no_stroke();
        let bgc = s.background_color();
        s.fill(bgc);
        let _ = s.rect(rect);

        // Scroll thumb
        if hovered {
            s.set_frame_cursor(crate::window::Cursor::hand());
        }
        if hovered || active || focused {
            let c = s.highlight_color();
            s.fill(c);
        } else if disabled {
            let c = s.muted_color().blended(crate::pixel::Pixel::rgb(0, 0, 0), 50);
            s.fill(c);
        } else {
            let c = s.muted_color();
            s.fill(c);
        }
        let thumb_w = match dir {
            Direction::Horizontal => thumb_extent(rect.width, maxi),
            Direction::Vertical => rect.width,
        };
        let thumb_h = match dir {
            Direction::Horizontal => rect.height,
            Direction::Vertical => thumb_extent(rect.height, maxi),
        };
        let _ = match dir {
            Direction::Horizontal => {
                let thumb_x = mul_div(*value, rect.width - thumb_w, maxi);
                s.rect(Rect::new(rect.x + thumb_x, rect.y, thumb_w, thumb_h))
            },
            Direction::Vertical => {
                let thumb_y = mul_div(*value, rect.height - thumb_h, maxi);
                s.rect(Rect::new(rect.x, rect.y + thumb_y, thumb_w, thumb_h))
            },
        };

        s.pop();
        proof {
            assert(s.setting_stack@ =~= orig_stack);
        }

        // Process keyboard input
        let mut new_value = *value;
        if focused {
            match s.ui.key_entered() {
                Some(key) => {
                    match key {
                        Key::Up => if matches!(dir, Direction::Vertical) {
                            new_value = clamp_i64(new_value as i64 - SCROLL_SPEED as i64, 0, maxi as i64) as i32;
                        },
                        Key::Down => if matches!(dir, Direction::Vertical) {
                            new_value = clamp_i64(new_value as i64 + SCROLL_SPEED as i64, 0, maxi as i64) as i32;
                        },
                        Key::Left => if matches!(dir, Direction::Horizontal) {
                            new_value = clamp_i64(new_value as i64 - SCROLL_SPEED as i64, 0, maxi as i64) as i32;
                        },
                        Key::Right => if matches!(dir, Direction::Horizontal) {
                            new_value = clamp_i64(new_value as i64 + SCROLL_SPEED as i64, 0, maxi as i64) as i32;
                        },
                        _ => (),
                    }
                },
                None => (),
            }
        }

        // Process mouse wheel, keeping the offset inside its range
        if hovered {
            match dir {
                Direction::Vertical => if s.ui.mouse.yrel != 0 {
                    new_value = wheel_step(new_value, s.ui.mouse.yrel, maxi);
                },
                Direction::Horizontal => if s.ui.mouse.xrel != 0 {
                    new_value = wheel_step(new_value, s.ui.mouse.xrel, maxi);
                },
            }
        }

        // Process mouse drag
        if active {
            new_value = match dir {
                Direction::Vertical => {
                    let my = clamp_i32(s.ui.mouse.ypos - rect.y, 0, rect.height);
                    mul_div(my, maxi, rect.height)
                },
                Direction::Horizontal => {
                    let mx = clamp_i32(s.ui.mouse.xpos - rect.x, 0, rect.width);
                    mul_div(mx, maxi, rect.width)
                },
            };
        }
        s.ui.handle_events(id);

        if new_value != *value {
            *value = new_value;
            Ok(true)
        } else {
            Ok(false)
        }
    }
}

impl PixState {
    /// Handles mouse-wheel scrolling for the hovered element `id` over a
    /// content area `width` by `height` pixels seen through `rect`, and
    /// draws scrollbars along the edges the content overflows. Reports the
    /// region grown by the scrollbar breadth, for the caller to advance
    /// the layout past.
    #[verifier::rlimit(100)]
    pub fn scroll(&mut self, id: u64, rect: Rect, width: i32, height: i32) -> (r: PixResult<
        Rect,
    >)
        requires
            old(self).wf(),
            rect.wf(),
            -0x18000 <= rect.x <= 0x18000,
            -0x18000 <= rect.y <= 0x18000,
            SCROLL_SIZE + 1 <= rect.width <= 0x10000,
            1 <= rect.height <= 0x10000,
            0 <= width <= 0x7fff_ffff,
            0 <= height <= 0x7fff_ffff,
        ensures
            final(self).wf(),
            spec_stacks_balanced(old(self), final(self)),
            r == Ok::<Rect, crate::state::PixError>(
                Rect {
                    x: rect.x,
                    y: rect.y,
                    width: (rect.width + SCROLL_SIZE) as i32,
                    height: (rect.height + SCROLL_SIZE) as i32,
                },
            ),
            ({
                let sc = old(self).ui.spec_scroll(id);
                let xmax = width - rect.width;
                let ymax = height - rect.height;
                let vbar = Rect {
                    x: (rect.x + rect.width + 1) as i32,
                    y: rect.y,
                    width: SCROLL_SIZE as i32,
                    height: rect.height,
                };
                let hbar = Rect {
                    x: rect.x,
                    y: (rect.y + rect.height + 1) as i32,
                    width: (rect.width - SCROLL_SIZE) as i32,
                    height: SCROLL_SIZE as i32,
                };
                let vbar_id = crate::gui::state::spec_rect_id(vbar, old(self).ui.id_stack@);
                let hbar_id = crate::gui::state::spec_rect_id(hbar, old(self).ui.id_stack@);
                let mx = old(self).ui.mouse.xpos as int;
                let my = old(self).ui.mouse.ypos as int;
                let vbar_idle = height <= rect.height || (!old(self).ui.spec_is_active(vbar_id)
                    && old(self).ui.focused != Some(vbar_id) && !vbar.spec_contains(mx, my));
                let hbar_idle = width <= rect.width || (!old(self).ui.spec_is_active(hbar_id)
                    && old(self).ui.focused != Some(hbar_id) && !hbar.spec_contains(mx, my));
                let wheel_x = old(self).ui.spec_is_hovered(id) && old(self).ui.mouse.xrel != 0;
                let wheel_y = old(self).ui.spec_is_hovered(id) && old(self).ui.mouse.yrel != 0;
                vbar_idle && hbar_idle ==> final(self).ui.spec_scroll(id) == (
                    (if wheel_x {
                        spec_wheel_scroll(sc.0 as int, old(self).ui.mouse.xrel as int, xmax as int) as i32
                    } else {
                        sc.0
                    }),
                    (if wheel_y {
                        spec_wheel_scroll(sc.1 as int, old(self).ui.mouse.yrel as int, ymax as int) as i32
                    } else {
                        sc.1
                    }),
                )
            }),
    {
        let ghost orig = *self;
        let s = self;
        let mut scroll = s.ui.scroll(id);
        let ghost sc0 = scroll;
        let xmax = width - rect.width;
        let ymax = height - rect.height;
        if s.ui.is_hovered(id) {
            if s.ui.mouse.xrel != 0 {
                let nx = wheel_step(scroll.0, s.ui.mouse.xrel, xmax);
                scroll.0 = nx;
                s.ui.set_scroll(id, scroll.0, scroll.1);
            }
            if s.ui.mouse.yrel != 0 {
                let ny = wheel_step(scroll.1, s.ui.mouse.yrel, ymax);
                scroll.1 = ny;
                s.ui.set_scroll(id, scroll.0, scroll.1);
            }
        }

        // Vertical scroll
        if height > rect.height {
            let mut scroll_y = scroll.1;
            let bar = Rect::new(rect.x + rect.width + 1, rect.y, SCROLL_SIZE, rect.height);
            let scrolled = s.scrollbar(bar, ymax as u32, &mut scroll_y, Direction::Vertical);
            match scrolled {
                Ok(true) => {
                    scroll.1 = scroll_y;
                    s.ui.set_scroll(id, scroll.0, scroll.1);
                },
                _ => (),
            }
        }

        // Horizontal scroll
        if width > rect.width {
            let mut scroll_x = scroll.0;
            let bar = Rect::new(
                rect.x,
                rect.y + rect.height + 1,
                rect.width - SCROLL_SIZE,
                SCROLL_SIZE,
            );
            let scrolled = s.scrollbar(bar, xmax as u32, &mut scroll_x, Direction::Horizontal);
            match scrolled {
                Ok(true) => {
                    scroll.0 = scroll_x;
                    s.ui.set_scroll(id, scroll.0, scroll.1);
                },
                _ => (),
            }
        }

        Ok(Rect::new(rect.x, rect.y, rect.width + SCROLL_SIZE, rect.height + SCROLL_SIZE))
    }
}

/// One wheel step: `v - 3 * rel` clamped to `[0, maxv]`; a non-positive
/// range pins the offset at zero.
fn wheel_step(v: i32, rel: i32, maxv: i32) -> (r: i32)
    ensures
        maxv >= 0 ==> r == spec_wheel_scroll(v as int, rel as int, maxv as int),
        maxv < 0 ==> r == 0,
{
    proof {
        assert(3 * rel <= 3 * 0x8000_0000 && 3 * rel >= -(3 * 0x8000_0000)) by (nonlinear_arith)
            requires
                -0x8000_0000 <= rel <= 0x7fff_ffff,
        ;
    }
    let moved: i64 = v as i64 - 3i64 * rel as i64;
    let lim: i64 = if moved > maxv as i64 {
        maxv as i64
    } else {
        moved
    };
    let lim2: i64 = if lim < 0 {
        0
    } else {
        lim
    };
    lim2 as i32
}

/// The thumb length along a track `extent` pixels long scrolling a range
/// of `max`: the track scaled by its share of the whole, floored at the
/// minimum thumb and capped at the track.
fn thumb_extent(extent: i32, max: i32) -> (r: i32)
    requires
        1 <= extent <= 0x10000,
        1 <= max <= 0x7fff_ffff,
    ensures
        r == (if (extent * extent) / (max + extent) < THUMB_MIN {
            if THUMB_MIN > extent {
                extent as int
            } else {
                THUMB_MIN as int
            }
        } else {
            (extent * extent) / (max + extent)
        }),
        1 <= r <= extent,
{
    proof {
        assert(0 <= extent * extent <= 0x10000 * 0x10000) by (nonlinear_arith)
            requires
                1 <= extent <= 0x10000,
        ;
        assert((extent * extent) / (max + extent) <= extent) by {
            assert(extent * extent <= (max + extent) * extent) by (nonlinear_arith)
                requires
                    1 <= extent,
                    1 <= max,
            ;
            vstd::arithmetic::div_mod::lemma_div_is_ordered(
                extent * extent,
                (max + extent) * extent,
                max + extent,
            );
            vstd::arithmetic::div_mod::lemma_div_by_multiple(extent as int, max + extent);
            assert((max + extent) * extent == extent * (max + extent)) by (nonlinear_arith);
        }
    }
    let wide: i64 = (extent as i64 * extent as i64) / (max as i64 + extent as i64);
    let tw: i64 = if wide < THUMB_MIN as i64 {
        if THUMB_MIN > extent {
            extent as i64
        } else {
            THUMB_MIN as i64
        }
    } else {
        wide
    };
    tw as i32
}

} // verus!