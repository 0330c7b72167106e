//! Slider and drag widgets: a bound integer edited by dragging the
//! pointer, by proportional clicking on a track, or by inline numeric
//! entry.

use vstd::prelude::*;
use vstd::string::StringSliceAdditionalSpecFns;
use crate::event::{Key, KeyMod, Mouse};
use crate::gui::state::{label_text, spec_element_id, UiState};
use crate::gui::scroll::{spec_stacks_balanced, THUMB_MIN};
use crate::gui::{clamp_i32, clamp_i64, Rect, MOD_CTRL};
use crate::gui::widgets::spec_widget_rect;
use crate::state::{PixError, PixResult, PixState};

verus! {

/// The track rectangle of a slider or drag widget: the widget rectangle
/// shifted right past a non-empty label and the item padding.
pub open spec fn spec_track_rect(
    pos_x: int,
    pos_y: int,
    w: int,
    font_size: int,
    ipad_x: int,
    ipad_y: int,
    label_w: int,
    has_label: bool,
) -> Rect {
    let shift = if has_label {
        label_w + ipad_x
    } else {
        0
    };
    spec_widget_rect(pos_x + shift, pos_y, w, font_size, ipad_y)
}

/// The track rectangle a slider or drag call computes from the engine
/// state it is called in: the layout cursor, the pending width override
/// or the target width less the frame padding, the theme metrics and the
/// visible label's width.
pub open spec fn spec_widget_track(s: &PixState, label: Seq<char>) -> Rect {
    spec_track_rect(
        s.ui.cursor_x as int,
        s.ui.cursor_y as int,
        (match s.ui.next_width {
            Some(nw) => nw as int,
            None => s.data.spec_target().width - 2 * s.theme.style.frame_pad_x,
        }),
        s.theme.font_size as int,
        s.theme.style.item_pad_x as int,
        s.theme.style.item_pad_y as int,
        vstd::math::min(
            8 * s.data.font_scale * label.take(crate::gui::state::spec_hash_mark(label)).len(),
            0x10000,
        ),
        label.take(crate::gui::state::spec_hash_mark(label)).len() != 0,
    )
}

/// The value a captured slider drags to: the pointer's offset across the
/// track, clamped to it, scaled proportionally into `[min, max]`.
pub open spec fn spec_slider_value(mouse_x: int, track: Rect, min: int, max: int) -> int {
    let mx = vstd::math::max(0, vstd::math::min(mouse_x - track.x, track.width as int));
    min + (mx * (max - min)) / (track.width as int)
}

/// The value a captured drag widget moves to: the pointer's horizontal
/// motion since the previous frame, divided by one hundred under the
/// alternate modifier or tenfold under shift, scaled by `speed` and
/// clamped into `[min, max]`.
/// Division rounded toward zero, as machine division does.
pub open spec fn spec_div_trunc(a: int, d: int) -> int {
    if a >= 0 {
        a / d
    } else {
        -((-a) / d)
    }
}

pub open spec fn spec_drag_value(
    value: int,
    dx: int,
    alt: bool,
    shift: bool,
    speed: int,
    min: int,
    max: int,
) -> int {
    let delta = if alt {
        spec_div_trunc(dx, 100)
    } else if shift {
        dx * 10
    } else {
        dx
    };
    vstd::math::max(min, vstd::math::min(value + delta * speed, max))
}

/// `(delta * span) / range` for `0 <= delta <= range`: the result stays
/// within `[0, span]`.
fn scale_to_track(delta: i128, span: i32, range: i128) -> (r: i32)
    requires
        0 <= delta <= range,
        1 <= range < 0x1_0000_0000_0000_0000_0000,
        0 <= span <= 0x10000,
    ensures
        r == (delta * span) / (range as int),
        0 <= r <= span,
{
    proof {
        assert(0 <= delta * span <= range * span) by (nonlinear_arith)
            requires
                0 <= delta <= range,
                0 <= span,
        ;
        assert(range * span < 0x1_0000_0000_0000_0000_0000 * 0x10000) by (nonlinear_arith)
            requires
                range < 0x1_0000_0000_0000_0000_0000,
                0 <= span <= 0x10000,
                0 < range,
        ;
        vstd::arithmetic::div_mod::lemma_div_is_ordered(delta * span, range * span, range as int);
        vstd::arithmetic::div_mod::lemma_div_by_multiple(span as int, range as int);
        assert(range * span == span * range) by (nonlinear_arith);
    }
    let q: i128 = (delta * span as i128) / range;
    q as i32
}

/// Ten to the `k`.
pub open spec fn spec_pow10(k: nat) -> int
    decreases k,
{
    if k == 0 {
        1
    } else {
        10 * spec_pow10((k - 1) as nat)
    }
}

/// Ten to any power is positive.
proof fn lemma_pow10_pos(k: nat)
    ensures
        spec_pow10(k) >= 1,
    decreases k,
{
    if k > 0 {
        lemma_pow10_pos((k - 1) as nat);
    }
}

/// Appending one more digit to a running parse multiplies the value by
/// ten and adds the digit, as long as the carry stays representable.
proof fn lemma_parse_digits_snoc(s: Seq<char>, c: char, acc: int, neg: bool)
    requires
        crate::gui::state::spec_parse_digits(s, acc, neg) is Some,
        48 <= c as u32 <= 57,
        ({
            let w = crate::gui::state::spec_parse_digits(s, acc, neg)->0;
            let next = w * 10 + (c as u32 - 48);
            if neg {
                -next >= i64::MIN
            } else {
                next <= i64::MAX
            }
        }),
    ensures
        crate::gui::state::spec_parse_digits(s.push(c), acc, neg) == Some(
            (crate::gui::state::spec_parse_digits(s, acc, neg)->0) * 10 + (c as u32 - 48),
        ),
    decreases s.len(),
{
    reveal_with_fuel(crate::gui::state::spec_parse_digits, 3);
    if s.len() == 0 {
        assert(s.push(c)[0] == c);
        assert(s.push(c).drop_first() =~= Seq::<char>::empty());
        assert(crate::gui::state::spec_parse_digits(s, acc, neg) == Some(acc));
    } else {
        assert(s.push(c)[0] == s[0]);
        assert(s.push(c).drop_first() =~= s.drop_first().push(c));
        let d0 = s[0] as u32 - 48;
        assert(crate::gui::state::spec_parse_digits(s, acc, neg)
            == crate::gui::state::spec_parse_digits(s.drop_first(), acc * 10 + d0, neg));
        lemma_parse_digits_snoc(s.drop_first(), c, acc * 10 + d0, neg);
        assert(crate::gui::state::spec_parse_digits(s.push(c), acc, neg)
            == crate::gui::state::spec_parse_digits(s.drop_first().push(c), acc * 10 + d0, neg));
    }
}

/// The decimal text of `v`: it parses back to exactly `v`, so it can seed
/// a slider's inline numeric entry.
#[verifier::loop_isolation(false)]
#[verifier::rlimit(100)]
pub fn int_to_decimal(v: i64) -> (r: String)
    ensures
        r@.len() >= 1,
        crate::gui::state::spec_parse_i64(r@) == Some(v),
{
    let mut out = String::new();
    if v == 0 {
        out.append("0");
        proof {
            reveal_strlit("0");
            assert(out@ =~= seq!['0']);
            assert('0' as u32 == 48);
            assert(crate::gui::state::spec_parse_digits(out@.drop_first(), 0, false) == Some(
                0int,
            )) by {
                assert(out@.drop_first() =~= Seq::<char>::empty());
            }
        }
        return out;
    }
    let mut digits: Vec<u8> = Vec::new();
    let negative = v < 0;
    let mut m: u64 = if v == i64::MIN {
        9_223_372_036_854_775_808u64
    } else if v < 0 {
        (-v) as u64
    } else {
        v as u64
    };
    let ghost m0: int = m as int;
    proof {
        assert(negative ==> m0 <= 0x8000_0000_0000_0000 && v == -m0);
        assert(!negative ==> m0 <= 0x7fff_ffff_ffff_ffff && v == m0);
        vstd::arithmetic::div_mod::lemma_div_basics(m0);
    }
    while m > 0
        invariant
            m == m0 / spec_pow10(digits@.len() as nat),
            forall|j: int|
                0 <= j < digits@.len() ==> #[trigger] digits@[j] == (m0 / spec_pow10(
                    j as nat,
                )) % 10,
            m > 0 || digits@.len() > 0,
        decreases m,
    {
        let ghost len = digits@.len() as nat;
        digits.push((m % 10) as u8);
        proof {
            lemma_pow10_pos(len);
            vstd::arithmetic::div_mod::lemma_div_denominator(
                m0,
                spec_pow10(len),
                10,
            );
            assert(spec_pow10(len) * 10 == 10 * spec_pow10(len)) by (nonlinear_arith);
            assert(spec_pow10((len + 1) as nat) == 10 * spec_pow10(len));
        }
        m = m / 10;
    }
    proof {
        // The digit list covers all of the magnitude.
        lemma_pow10_pos(digits@.len() as nat);
        vstd::arithmetic::div_mod::lemma_fundamental_div_mod(
            m0,
            spec_pow10(digits@.len() as nat),
        );
        vstd::arithmetic::div_mod::lemma_mod_bound(m0, spec_pow10(digits@.len() as nat));
        assert(m0 < spec_pow10(digits@.len() as nat));
    }
    if negative {
        proof {
            reveal_strlit("-");
        }
        out.append("-");
    }
    let ghost sign: Seq<char> = if negative {
        seq!['-']
    } else {
        Seq::<char>::empty()
    };
    proof {
        assert(out@ =~= sign);
    }
    let mut i: usize = digits.len();
    while i > 0
        invariant
            i <= digits@.len(),
            out@ =~= sign + out@.skip(sign.len() as int),
            out@.len() == sign.len() + (digits@.len() - i),
            crate::gui::state::spec_parse_digits(
                out@.skip(sign.len() as int),
                0,
                negative,
            ) == Some(m0 / spec_pow10(i as nat)),
        decreases i,
    {
        i = i - 1;
        let d = digits[i];
        proof {
            assert(digits@[i as int] == (m0 / spec_pow10(i as nat)) % 10);
        }
        let piece: &'static str = match d {
            0 => "0",
            1 => "1",
            2 => "2",
            3 => "3",
            4 => "4",
            5 => "5",
            6 => "6",
            7 => "7",
            8 => "8",
            _ => "9",
        };
        proof {
            reveal_strlit("0");
            reveal_strlit("1");
            reveal_strlit("2");
            reveal_strlit("3");
            reveal_strlit("4");
            reveal_strlit("5");
            reveal_strlit("6");
            reveal_strlit("7");
            reveal_strlit("8");
            reveal_strlit("9");
            assert(piece@.len() == 1 && piece@[0] as u32 == 48 + d);
        }
        let ghost pre = out@;
        let ghost dchars = out@.skip(sign.len() as int);
        out.append(piece);
        proof {
            let c = piece@[0];
            assert(out@ =~= pre + seq![c]);
            assert(out@.skip(sign.len() as int) =~= dchars.push(c));
            // One more digit carries the quotient one power down.
            let w = m0 / spec_pow10((i + 1) as nat);
            lemma_pow10_pos(i as nat);
            vstd::arithmetic::div_mod::lemma_div_denominator(m0, spec_pow10(i as nat), 10);
            assert(spec_pow10(i as nat) * 10 == 10 * spec_pow10(i as nat)) by (nonlinear_arith);
            assert(spec_pow10((i + 1) as nat) == 10 * spec_pow10(i as nat));
            vstd::arithmetic::div_mod::lemma_fundamental_div_mod(
                m0 / spec_pow10(i as nat),
                10,
            );
            assert(m0 / spec_pow10(i as nat) == w * 10 + d);
            assert(m0 / spec_pow10(i as nat) <= m0) by {
                vstd::arithmetic::div_mod::lemma_div_is_ordered_by_denominator(
                    m0,
                    1,
                    spec_pow10(i as nat),
                );
                vstd::arithmetic::div_mod::lemma_div_basics(m0);
            }
            lemma_parse_digits_snoc(dchars, c, 0, negative);
        }
    }
    proof {
        assert(digits@.len() > 0);
        let dchars = out@.skip(sign.len() as int);
        assert(crate::gui::state::spec_parse_digits(dchars, 0, negative) == Some(m0)) by {
            assert(m0 / spec_pow10(0) == m0) by {
                vstd::arithmetic::div_mod::lemma_div_basics(m0);
            }
        }
        assert(dchars.len() >= 1);
        assert(48 <= dchars[0] as u32 <= 57) by {
            crate::gui::state::lemma_parse_digits_head(dchars, 0, negative);
        }
        if negative {
            assert(out@[0] == '-');
            assert(out@.drop_first() =~= dchars);
        } else {
            assert(out@ =~= dchars);
            assert(out@[0] != '-' && out@[0] != '+');
        }
    }
    out
}

impl PixState {
    /// Draws a draggable number widget bound to `value`, moving it by
    /// `speed` per pixel of horizontal pointer motion over the whole
    /// `i64` range.
    pub fn drag(&mut self, label: &str, value: &mut i64, speed: i64) -> (r: PixResult<bool>)
        requires
            old(self).wf(),
        ensures
            final(self).wf(),
            spec_stacks_balanced(old(self), final(self)),
            r is Ok,
            ({
                let id = spec_element_id(label.spec_bytes(), old(self).ui.id_stack@);
                let track = spec_widget_track(old(self), label@);
                let inside = track.spec_contains(
                    old(self).ui.mouse.xpos as int,
                    old(self).ui.mouse.ypos as int,
                );
                let hovered_now = crate::gui::state::spec_step_hover(
                    old(self).ui.hovered,
                    old(self).ui.active,
                    inside,
                    id,
                );
                &&& final(self).ui.hovered == hovered_now
                &&& final(self).ui.focused == crate::gui::state::spec_step_focus(
                    old(self).ui.focused,
                    old(self).ui.active,
                    id,
                )
                &&& final(self).ui.active == crate::gui::state::spec_step_active(
                    old(self).ui.active,
                    hovered_now,
                    old(self).ui.mouse.left_down,
                    id,
                )
                &&& (!old(self).ui.spec_is_active(id) ==> *final(value) == *old(value) && r
                    == Ok::<bool, PixError>(false))
                &&& (old(self).ui.spec_is_active(id) ==> *final(value) == spec_drag_value(
                    *old(value) as int,
                    old(self).ui.mouse.xpos - old(self).ui.pmouse_x,
                    old(self).ui.keys.spec_mod_down(KeyMod::Alt),
                    old(self).ui.keys.spec_mod_down(KeyMod::Shift),
                    speed as int,
                    i64::MIN as int,
                    i64::MAX as int,
                ))
                &&& r == Ok::<bool, PixError>(*final(value) != *old(value))
            }),
    {
        self.advanced_drag(label, value, speed, i64::MIN, i64::MAX)
    }

    /// Draws a draggable number widget bound to `value` within
    /// `[min, max]`, moving it by `speed` per pixel of horizontal pointer
    /// motion: slowed a hundredfold under the alternate modifier and sped
    /// tenfold under shift. A frame in which the widget does not hold the
    /// capture leaves the value untouched and reports no change.
    #[verifier::rlimit(100)]
    pub fn advanced_drag(&mut self, label: &str, value: &mut i64, speed: i64, min: i64, max: i64)
        -> (r: PixResult<bool>)
        requires
            old(self).wf(),
            min <= max,
        ensures
            final(self).wf(),
            spec_stacks_balanced(old(self), final(self)),
            r is Ok,
            ({
                let id = spec_element_id(label.spec_bytes(), old(self).ui.id_stack@);
                let track = spec_widget_track(old(self), label@);
                let inside = track.spec_contains(
                    old(self).ui.mouse.xpos as int,
                    old(self).ui.mouse.ypos as int,
                );
                let hovered_now = crate::gui::state::spec_step_hover(
                    old(self).ui.hovered,
                    old(self).ui.active,
                    inside,
                    id,
                );
                &&& final(self).ui.hovered == hovered_now
                &&& final(self).ui.focused == crate::gui::state::spec_step_focus(
                    old(self).ui.focused,
                    old(self).ui.active,
                    id,
                )
                &&& final(self).ui.active == crate::gui::state::spec_step_active(
                    old(self).ui.active,
                    hovered_now,
                    old(self).ui.mouse.left_down,
                    id,
                )
                &&& (!old(self).ui.spec_is_active(id) ==> *final(value) == *old(value) && r
                    == Ok::<bool, PixError>(false))
                &&& (old(self).ui.spec_is_active(id) ==> *final(value) == spec_drag_value(
                    *old(value) as int,
                    old(self).ui.mouse.xpos - old(self).ui.pmouse_x,
                    old(self).ui.keys.spec_mod_down(KeyMod::Alt),
                    old(self).ui.keys.spec_mod_down(KeyMod::Shift),
                    speed as int,
                    min as int,
                    max as int,
                ))
                &&& r == Ok::<bool, PixError>(*final(value) != *old(value))
            }),
    {
        let ghost orig_stack = self.setting_stack@;
        let ghost orig_cursors = self.ui.cursor_stack@;
        let s = self;
        let id = s.ui.get_id(label);
        let vis = label_text(label);
        let (pos_x, pos_y) = s.ui.cursor_pos();
        let w = s.take_next_width();
        let (lwidth, lheight) = s.size_of(vis);
        let has_label = vis.unicode_len() != 0;
        let shift: i64 = if has_label {
            lwidth as i64 + s.theme.style.item_pad_x as i64
        } else {
            0
        };
        let drag = s.widget_rect(
            clamp_i64(pos_x as i64 + shift, -0x20000, 0x20000) as i32,
            pos_y,
            w,
        );

        let hovered = s.ui.try_hover(id, drag);
        let focused = s.ui.try_focus(id);
        let disabled = s.ui.disabled;
        let active = s.ui.is_active(id);

        s.push();
        s.ui.push_cursor();

        // Label
        if has_label {
            let tc = s.text_color();
            s.fill(tc);
            s.ui.set_cursor_pos(pos_x, pos_y + (drag.height - lheight as i32) / 2);
            let _ = s.text(vis);
        }

        // Frame
        if focused || active {
            let c = s.highlight_color();
            s.stroke(c);
        } else {
            let c = s.muted_color();
            s.stroke(c);
        }
        if active {
            s.set_frame_cursor(crate::window::Cursor::hand());
            let c = s.highlight_color();
            s.fill(c);
        } else if disabled {
            let c = s.theme.colors.primary.blended(crate::pixel::Pixel::rgb(0, 0, 0), 50);
            s.fill(c);
        } else if hovered {
            s.set_frame_cursor(crate::window::Cursor::hand());
            let c = s.theme.colors.secondary;
            s.fill(c);
        } else {
            let c = s.theme.colors.primary;
            s.fill(c);
        }
        let _ = s.rect(drag);

        // Value text
        let text = int_to_decimal(*value);
        s.ui.set_cursor_pos(
            drag.x + s.theme.style.item_pad_x,
            drag.y + s.theme.style.item_pad_y,
        );
        let tc = s.text_color();
        s.fill(tc);
        let _ = s.text(text.as_str());

        s.ui.pop_cursor();
        s.pop();
        proof {
            assert(s.setting_stack@ =~= orig_stack);
            assert(s.ui.cursor_stack@ =~= orig_cursors);
        }

        // Resolve the drag
        let mut changed = false;
        let mut new_value = *value;
        if active {
            let dx: i64 = s.ui.mouse.xpos as i64 - s.ui.pmouse_x as i64;
            let delta: i64 = if s.keymod_down(KeyMod::Alt) {
                div_trunc_100(dx)
            } else if s.keymod_down(KeyMod::Shift) {
                dx * 10
            } else {
                dx
            };
            new_value = add_mul_clamped(*value, delta, speed, min, max);
        }
        if new_value != *value {
            *value = new_value;
            changed = true;
        }
        s.ui.handle_events(id);
        s.advance_cursor(
            Rect::new(
                clamp_i32(pos_x, -0x8000, 0x8000),
                clamp_i32(pos_y, -0x8000, 0x8000),
                clamp_i32(drag.width, 0, 0x10000),
                drag.height,
            ),
        );

        Ok(changed)
    }

    /// Draws a slider widget bound to `value` within `[min, max]`.
    pub fn slider(&mut self, label: &str, value: &mut i64, min: i64, max: i64) -> (r: PixResult<
        bool,
    >)
        requires
            old(self).wf(),
            min <= max,
        ensures
            final(self).wf(),
            spec_stacks_balanced(old(self), final(self)),
            r is Ok,
            ({
                let id = spec_element_id(label.spec_bytes(), old(self).ui.id_stack@);
                let editing_now = old(self).ui.editing == Some(id) && !old(self).ui.edit_done
                    && !old(self).ui.disabled;
                let committed = old(self).ui.editing == Some(id) && (old(self).ui.edit_done
                    || old(self).ui.disabled);
                let parsed = (if committed {
                    match crate::gui::state::spec_parse_i64(old(self).ui.edit_text@) {
                        Some(p) => p as int,
                        None => *old(value) as int,
                    }
                } else {
                    *old(value) as int
                });
                let v1 = vstd::math::max(min as int, vstd::math::min(parsed, max as int));
                let track = spec_widget_track(old(self), label@);
                let inside = track.spec_contains(
                    old(self).ui.mouse.xpos as int,
                    old(self).ui.mouse.ypos as int,
                );
                let hovered_now = crate::gui::state::spec_step_hover(
                    old(self).ui.hovered,
                    old(self).ui.active,
                    inside,
                    id,
                );
                let was_active = old(self).ui.spec_is_active(id);
                let ctrl = old(self).ui.keys.spec_mod_down(MOD_CTRL);
                let resting = old(self).ui.editing != Some(id) && !was_active;
                &&& (editing_now ==> {
                    &&& *final(value) == *old(value)
                    &&& r == Ok::<bool, PixError>(false)
                    &&& final(self).ui.active == old(self).ui.active
                    &&& final(self).ui.hovered == old(self).ui.hovered
                    &&& final(self).ui.focused == old(self).ui.focused
                    &&& final(self).ui.editing == old(self).ui.editing
                    &&& final(self).ui.edit_text == old(self).ui.edit_text
                    &&& final(self).ui.edit_done == (old(self).ui.keys.entered == Some(
                        Key::Return,
                    ) || old(self).ui.keys.entered == Some(Key::Escape))
                })
                &&& (!editing_now ==> {
                    &&& min <= *final(value) <= max
                    &&& r == Ok::<bool, PixError>(*final(value) != v1)
                    &&& final(self).ui.hovered == hovered_now
                    &&& final(self).ui.focused == crate::gui::state::spec_step_focus(
                        old(self).ui.focused,
                        old(self).ui.active,
                        id,
                    )
                    &&& final(self).ui.active == crate::gui::state::spec_step_active(
                        old(self).ui.active,
                        hovered_now,
                        old(self).ui.mouse.left_down,
                        id,
                    )
                    &&& (!was_active ==> *final(value) == v1)
                    &&& (was_active && ctrl ==> *final(value) == v1 && ((old(self).ui.editing
                        is None || committed) ==> final(self).ui.editing == Some(id)
                        && crate::gui::state::spec_parse_i64(final(self).ui.edit_text@)
                        == Some(*final(value))))
                    &&& (was_active && !ctrl ==> *final(value) == spec_slider_value(
                        old(self).ui.mouse.xpos as int,
                        track,
                        min as int,
                        max as int,
                    ))
                })
                &&& (resting && min <= *old(value) <= max ==> *final(value) == *old(value) && r
                    == Ok::<bool, PixError>(false))
            }),
    {
        self.advanced_slider(label, value, min, max)
    }

    /// Draws a slider widget bound to `value` within `[min, max]`: a
    /// track whose thumb mirrors the value's position in the range.
    ///
    /// While the slider holds the capture the value follows the pointer
    /// proportionally across the track, unless the control modifier is
    /// held, which switches the slider into inline numeric entry; a
    /// committed entry is parsed on the next call and a failed parse
    /// falls back to the value it had. The value always ends inside
    /// `[min, max]`. A frame in which the slider is neither captured nor
    /// editing leaves an in-range value untouched and reports no change.
    #[verifier::rlimit(100)]
    pub fn advanced_slider(&mut self, label: &str, value: &mut i64, min: i64, max: i64) -> (r:
        PixResult<bool>)
        requires
            old(self).wf(),
            min <= max,
        ensures
            final(self).wf(),
            spec_stacks_balanced(old(self), final(self)),
            r is Ok,
            ({
                let id = spec_element_id(label.spec_bytes(), old(self).ui.id_stack@);
                let editing_now = old(self).ui.editing == Some(id) && !old(self).ui.edit_done
                    && !old(self).ui.disabled;
                let committed = old(self).ui.editing == Some(id) && (old(self).ui.edit_done
                    || old(self).ui.disabled);
                let parsed = (if committed {
                    match crate::gui::state::spec_parse_i64(old(self).ui.edit_text@) {
                        Some(p) => p as int,
                        None => *old(value) as int,
                    }
                } else {
                    *old(value) as int
                });
                let v1 = vstd::math::max(min as int, vstd::math::min(parsed, max as int));
                let track = spec_widget_track(old(self), label@);
                let inside = track.spec_contains(
                    old(self).ui.mouse.xpos as int,
                    old(self).ui.mouse.ypos as int,
                );
                let hovered_now = crate::gui::state::spec_step_hover(
                    old(self).ui.hovered,
                    old(self).ui.active,
                    inside,
                    id,
                );
                let was_active = old(self).ui.spec_is_active(id);
                let ctrl = old(self).ui.keys.spec_mod_down(MOD_CTRL);
                let resting = old(self).ui.editing != Some(id) && !was_active;
                &&& (editing_now ==> {
                    &&& *final(value) == *old(value)
                    &&& r == Ok::<bool, PixError>(false)
                    &&& final(self).ui.active == old(self).ui.active
                    &&& final(self).ui.hovered == old(self).ui.hovered
                    &&& final(self).ui.focused == old(self).ui.focused
                    &&& final(self).ui.editing == old(self).ui.editing
                    &&& final(self).ui.edit_text == old(self).ui.edit_text
                    &&& final(self).ui.edit_done == (old(self).ui.keys.entered == Some(
                        Key::Return,
                    ) || old(self).ui.keys.entered == Some(Key::Escape))
                })
                &&& (!editing_now ==> {
                    &&& min <= *final(value) <= max
                    &&& r == Ok::<bool, PixError>(*final(value) != v1)
                    &&& final(self).ui.hovered == hovered_now
                    &&& final(self).ui.focused == crate::gui::state::spec_step_focus(
                        old(self).ui.focused,
                        old(self).ui.active,
                        id,
                    )
                    &&& final(self).ui.active == crate::gui::state::spec_step_active(
                        old(self).ui.active,
                        hovered_now,
                        old(self).ui.mouse.left_down,
                        id,
                    )
                    &&& (!was_active ==> *final(value) == v1)
                    &&& (was_active && ctrl ==> *final(value) == v1 && ((old(self).ui.editing
                        is None || committed) ==> final(self).ui.editing == Some(id)
                        && crate::gui::state::spec_parse_i64(final(self).ui.edit_text@)
                        == Some(*final(value))))
                    &&& (was_active && !ctrl ==> *final(value) == spec_slider_value(
                        old(self).ui.mouse.xpos as int,
                        track,
                        min as int,
                        max as int,
                    ))
                })
                &&& (resting && min <= *old(value) <= max ==> *final(value) == *old(value) && r
                    == Ok::<bool, PixError>(false))
            }),
    {
        let ghost orig_stack = self.setting_stack@;
        let ghost orig_cursors = self.ui.cursor_stack@;
        let s = self;
        let id = s.ui.get_id(label);
        let vis = label_text(label);
        let (pos_x, pos_y) = s.ui.cursor_pos();

        // If editing, render the numeric-entry field instead
        let editing = s.ui.is_editing(id);
        let disabled = s.ui.disabled;
        if editing {
            if disabled {
                s.ui.end_edit();
            } else {
                let text = s.ui.text_edit(id);
                let w = s.take_next_width();
                let field = s.widget_rect(pos_x, pos_y, w);
                s.push();
                s.ui.push_cursor();
                let hl = s.highlight_color();
                s.stroke(hl);
                let bgc = s.background_color();
                s.fill(bgc);
                let _ = s.rect(field);
                let tc = s.text_color();
                s.fill(tc);
                s.ui.set_cursor_pos(
                    field.x + s.theme.style.item_pad_x,
                    field.y + s.theme.style.item_pad_y,
                );
                let _ = s.text(text.as_str());
                s.ui.pop_cursor();
                s.pop();
                proof {
                    assert(s.setting_stack@ =~= orig_stack);
                    assert(s.ui.cursor_stack@ =~= orig_cursors);
                }
                match s.ui.key_entered() {
                    Some(Key::Return) => s.ui.end_edit(),
                    Some(Key::Escape) => s.ui.end_edit(),
                    _ => (),
                }
                s.advance_cursor(field);
                return Ok(false);
            }
        }
        let parsed = s.ui.parse_text_edit(id, *value);
        *value = clamp_i64(parsed, min, max);

        // Calculate slider rect
        let w = s.take_next_width();
        let (lwidth, lheight) = s.size_of(vis);
        let has_label = vis.unicode_len() != 0;
        let shift: i64 = if has_label {
            lwidth as i64 + s.theme.style.item_pad_x as i64
        } else {
            0
        };
        let slider = s.widget_rect(
            clamp_i64(pos_x as i64 + shift, -0x20000, 0x20000) as i32,
            pos_y,
            w,
        );
        let ghost track = spec_track_rect(
            pos_x as int,
            pos_y as int,
            w as int,
            s.theme.font_size as int,
            s.theme.style.item_pad_x as int,
            s.theme.style.item_pad_y as int,
            lwidth as int,
            has_label,
        );
        proof {
            assert(slider == track);
        }

        // Check hover/active/keyboard focus
        let hovered = s.ui.try_hover(id, slider);
        let focused = s.ui.try_focus(id);
        let active = s.ui.is_active(id);

        s.push();
        s.ui.push_cursor();

        // Label
        if has_label {
            let tc = s.text_color();
            s.fill(tc);
            s.ui.set_cursor_pos(pos_x, pos_y + (slider.height - lheight as i32) / 2);
            let _ = s.text(vis);
        }

        // Track
        let mc = s.muted_color();
        s.stroke(mc);
        if disabled {
            let c = mc.blended(crate::pixel::Pixel::rgb(0, 0, 0), 25);
            s.fill(c);
        } else {
            let c = mc.blended(crate::pixel::Pixel::rgb(0, 0, 0), 50);
            s.fill(c);
        }
        let _ = s.rect(slider);

        // Thumb
        if hovered {
            s.set_frame_cursor(crate::window::Cursor::hand());
        }
        if hovered || active || focused {
            let c = s.highlight_color();
            s.fill(c);
        } else if disabled {
            let c = mc.blended(crate::pixel::Pixel::rgb(0, 0, 0), 50);
            s.fill(c);
        } else {
            s.fill(mc);
        }
        let range: i128 = max as i128 - min as i128;
        let thumb_w: i32 = if range > 1 {
            let tw = (slider.width as i128 / range) as i32;
            if tw > slider.width {
                slider.width
            } else {
                tw
            }
        } else if THUMB_MIN > slider.width {
            slider.width
        } else {
            THUMB_MIN
        };
        let offset: i32 = if range >= 1 {
            scale_to_track(
                *value as i128 - min as i128,
                slider.width - thumb_w,
                range,
            )
        } else {
            0
        };
        let thumb = Rect::new(slider.x + offset, slider.y, thumb_w, slider.height);
        let _ = s.rect(thumb);

        s.ui.pop_cursor();
        s.pop();
        proof {
            assert(s.setting_stack@ =~= orig_stack);
            assert(s.ui.cursor_stack@ =~= orig_cursors);
        }

        // Resolve input
        let mut new_value = *value;
        if active && s.keymod_down(MOD_CTRL) {
            // Switch into numeric entry seeded with the current value
            let seed = int_to_decimal(*value);
            s.ui.begin_edit(id, seed.as_str());
        } else if active {
            let mx = crate::gui::clamp_i32(
                clamp_i64(s.ui.mouse.xpos as i64 - slider.x as i64, -0x20000, 0x20000) as i32,
                0,
                slider.width,
            );
            if range >= 1 {
                let scaled = scale_to_range(mx, range, slider.width);
                new_value = clamp_i64((min as i128 + scaled) as i64, min, max);
                proof {
                    assert(min + scaled <= max && min <= min + scaled) by {
                        assert(scaled <= range);
                    }
                }
            } else {
                new_value = min;
            }
        }
        s.ui.handle_events(id);
        s.advance_cursor(
            Rect::new(
                clamp_i32(pos_x, -0x8000, 0x8000),
                clamp_i32(pos_y, -0x8000, 0x8000),
                clamp_i32(slider.width, 0, 0x10000),
                slider.height,
            ),
        );

        if new_value != *value {
            *value = new_value;
            Ok(true)
        } else {
            Ok(false)
        }
    }
}

/// `(mx * range) / span` for a track offset `0 <= mx <= span`: the result
/// stays within `[0, range]`.
fn scale_to_range(mx: i32, range: i128, span: i32) -> (r: i128)
    requires
        0 <= mx <= span,
        1 <= span <= 0x10000,
        1 <= range < 0x1_0000_0000_0000_0000_0000,
    ensures
        r == (mx * range) / (span as int),
        0 <= r <= range,
{
    proof {
        assert(0 <= mx * range <= span * range) by (nonlinear_arith)
            requires
                0 <= mx <= span,
                0 <= range,
        ;
        assert(span * range < 0x10001 * 0x1_0000_0000_0000_0000_0000) by (nonlinear_arith)
            requires
                span <= 0x10000,
                0 <= range < 0x1_0000_0000_0000_0000_0000,
        ;
        vstd::arithmetic::div_mod::lemma_div_is_ordered(mx * range, span * range, span as int);
        vstd::arithmetic::div_mod::lemma_div_by_multiple(range as int, span as int);
        assert(span * range == range * span) by (nonlinear_arith);
    }
    (mx as i128 * range) / span as i128
}

/// `dx / 100` rounded toward zero, as machine division does.
fn div_trunc_100(dx: i64) -> (r: i64)
    ensures
        r == spec_div_trunc(dx as int, 100),
{
    if dx < 0 {
        let mag = if dx == i64::MIN {
            // The magnitude of the least value does not fit; divide its
            // halves instead: the quotient is even so no rounding is lost.
            (9_223_372_036_854_775_808u64 / 100) as i64
        } else {
            (-dx) / 100
        };
        proof {
            if dx == i64::MIN {
                vstd::arithmetic::div_mod::lemma_fundamental_div_mod_converse(
                    9223372036854775808,
                    100,
                    92233720368547758,
                    8,
                );
            }
        }
        -mag
    } else {
        dx / 100
    }
}

/// `value + delta * speed` clamped into `[min, max]`.
fn add_mul_clamped(value: i64, delta: i64, speed: i64, min: i64, max: i64) -> (r: i64)
    requires
        min <= max,
    ensures
        r == vstd::math::max(min as int, vstd::math::min(value + delta * speed, max as int)),
{
    proof {
        assert(delta * speed <= 0x8000_0000_0000_0000 * 0x8000_0000_0000_0000)
            by (nonlinear_arith)
            requires
                -0x8000_0000_0000_0000 <= delta <= 0x7fff_ffff_ffff_ffff,
                -0x8000_0000_0000_0000 <= speed <= 0x7fff_ffff_ffff_ffff,
        ;
        assert(delta * speed >= -(0x8000_0000_0000_0000 * 0x8000_0000_0000_0000))
            by (nonlinear_arith)
            requires
                -0x8000_0000_0000_0000 <= delta <= 0x7fff_ffff_ffff_ffff,
                -0x8000_0000_0000_0000 <= speed <= 0x7fff_ffff_ffff_ffff,
        ;
    }
    let moved: i128 = value as i128 + delta as i128 * speed as i128;
    let lim: i128 = if moved > max as i128 {
        max as i128
    } else {
        moved
    };
    let lim2: i128 = if lim < min as i128 {
        min as i128
    } else {
        lim
    };
    lim2 as i64
}

} // verus!
