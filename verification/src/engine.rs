//! The frame-step engine core: the decisions of the main loop as pure
//! state transitions. The platform layer polls events, hands each one to
//! [`PixState::on_event`], runs the application's update callback, and
//! performs whatever [`LoopAction`] comes back; the frame ends with
//! [`PixState::end_frame`].

use vstd::prelude::*;
use crate::event::PixEvent;
use crate::state::PixState;
use crate::gui::clamp_i32;

verus! {

/// What the main loop must do after folding one event.
#[derive(Debug, Copy, Clone, PartialEq, Eq, Structural)]
pub enum LoopAction {
    /// Keep running.
    Continue,
    /// Stop the loop and shut the engine down.
    Quit,
    /// Close the secondary window with the given id and keep running.
    CloseWindow(u32),
}

/// How many ticks of the frame clock make one second.
pub const NANOS_PER_SECOND: u64 = 1_000_000_000;

/// Counts frames and emits the rate once per elapsed second, for the
/// frame driver's title updates.
#[derive(Debug, Copy, Clone, PartialEq, Eq, Structural)]
pub struct FrameClock {
    /// Nanoseconds accumulated since the rate was last emitted.
    pub frame_timer: u64,
    /// Frames counted since the rate was last emitted.
    pub frame_counter: u32,
}

impl FrameClock {
    /// A fresh clock with nothing accumulated.
    pub fn new() -> (c: FrameClock)
        ensures
            c.frame_timer == 0,
            c.frame_counter == 0,
    {
        FrameClock { frame_timer: 0, frame_counter: 0 }
    }

    /// Counts one frame that took `elapsed` nanoseconds. Once a full
    /// second has accumulated, reports the frames counted within it and
    /// starts the next second, carrying the excess.
    pub fn tick(&mut self, elapsed: u64) -> (fps: Option<u32>)
        requires
            old(self).frame_timer < NANOS_PER_SECOND,
        ensures
            final(self).frame_timer < NANOS_PER_SECOND,
            ({
                let t = old(self).frame_timer + elapsed;
                let n = if old(self).frame_counter < 0xffff_ffff {
                    old(self).frame_counter + 1
                } else {
                    old(self).frame_counter as int
                };
                if t >= NANOS_PER_SECOND {
                    &&& fps == Some(n as u32)
                    &&& final(self).frame_counter == 0
                    &&& final(self).frame_timer == (if t - NANOS_PER_SECOND < NANOS_PER_SECOND {
                        t - NANOS_PER_SECOND
                    } else {
                        0int
                    })
                } else {
                    &&& fps is None
                    &&& final(self).frame_counter == n
                    &&& final(self).frame_timer == t
                }
            }),
    {
        let t: u128 = self.frame_timer as u128 + elapsed as u128;
        let n: u32 = if self.frame_counter < 0xffff_ffff {
            self.frame_counter + 1
        } else {
            self.frame_counter
        };
        if t >= NANOS_PER_SECOND as u128 {
            self.frame_counter = 0;
            let rest: u128 = t - NANOS_PER_SECOND as u128;
            self.frame_timer = if rest < NANOS_PER_SECOND as u128 {
                rest as u64
            } else {
                0
            };
            Some(n)
        } else {
            self.frame_counter = n;
            self.frame_timer = t as u64;
            None
        }
    }
}

impl PixState {
    /// Folds one platform event into the input snapshot and decides what
    /// the main loop does next: quit requests and the primary window's
    /// close stop the loop, another window's close is handed back to the
    /// platform layer, and input events update the snapshot the widgets
    /// of this frame will read.
    pub fn on_event(&mut self, event: &PixEvent, time: u64) -> (action: LoopAction)
        requires
            old(self).wf(),
        ensures
            final(self).wf(),
            match *event {
                PixEvent::Quit => action == LoopAction::Quit && *final(self) == *old(self),
                PixEvent::AppTerminating => action == LoopAction::Quit && *final(self) == *old(self),
                PixEvent::WinClose(id) => if id == 1 {
                    action == LoopAction::Quit && *final(self) == *old(self)
                } else {
                    action == LoopAction::CloseWindow(id) && *final(self) == *old(self)
                },
                PixEvent::KeyPress(key, pressed, keymod) => {
                    &&& action == LoopAction::Continue
                    &&& (pressed ==> final(self).ui.keys.entered == Some(key) && final(self).ui.keys.spec_is_down(key) && final(self).ui.keys.spec_mod_down(keymod))
                    &&& (!pressed ==> !final(self).ui.keys.spec_is_down(key) && !final(self).ui.keys.spec_mod_down(keymod))
                },
                PixEvent::MousePress(btn, x, y, pressed) => {
                    &&& action == LoopAction::Continue
                    &&& (pressed ==> final(self).ui.mouse.spec_is_down(btn) && final(self).ui.mouse.spec_was_clicked(btn) && final(self).ui.mouse.spec_last_clicked(
                        btn,
                    ) == Some(time))
                    &&& (!pressed ==> !final(self).ui.mouse.spec_is_down(btn))
                },
                PixEvent::MouseMotion(x, y) => {
                    &&& action == LoopAction::Continue
                    &&& final(self).ui.mouse.xpos == vstd::math::max(
                        -0x10000,
                        vstd::math::min(x as int, 0x10000),
                    )
                    &&& final(self).ui.mouse.ypos == vstd::math::max(
                        -0x10000,
                        vstd::math::min(y as int, 0x10000),
                    )
                },
                PixEvent::MouseWheel(delta) => {
                    &&& action == LoopAction::Continue
                    &&& final(self).ui.mouse == (crate::input::MouseState {
                        yrel: final(self).ui.mouse.yrel,
                        ..old(self).ui.mouse
                    })
                    &&& final(self).ui.mouse.yrel == vstd::math::max(
                        i32::MIN as int,
                        vstd::math::min(old(self).ui.mouse.yrel + delta, i32::MAX as int),
                    )
                    &&& *final(self) == (PixState { ui: final(self).ui, ..*old(self) })
                    &&& final(self).ui == (crate::gui::state::UiState {
                        mouse: final(self).ui.mouse,
                        ..old(self).ui
                    })
                },
                PixEvent::TextInput(ref text) => {
                    &&& action == LoopAction::Continue
                    &&& (old(self).ui.editing is Some && !old(self).ui.edit_done ==> {
                        &&& final(self).ui.edit_text@ == old(self).ui.edit_text@ + text@
                        &&& final(self).ui == (crate::gui::state::UiState {
                            edit_text: final(self).ui.edit_text,
                            ..old(self).ui
                        })
                        &&& *final(self) == (PixState { ui: final(self).ui, ..*old(self) })
                    })
                    &&& (!(old(self).ui.editing is Some && !old(self).ui.edit_done)
                        ==> *final(self) == *old(self))
                },
                PixEvent::Focus(focused) => action == LoopAction::Continue && *final(self)
                    == *old(self),
            },
    {
        match event {
            PixEvent::Quit => LoopAction::Quit,
            PixEvent::AppTerminating => LoopAction::Quit,
            PixEvent::WinClose(id) => {
                if *id == 1 {
                    LoopAction::Quit
                } else {
                    LoopAction::CloseWindow(*id)
                }
            },
            PixEvent::KeyPress(key, pressed, keymod) => {
                if *pressed {
                    self.ui.keys.press(*key, *keymod);
                } else {
                    self.ui.keys.release(*key, *keymod);
                }
                LoopAction::Continue
            },
            PixEvent::MousePress(btn, x, y, pressed) => {
                if *pressed {
                    self.ui.mouse.press(*btn);
                    self.ui.mouse.click(*btn, time);
                } else {
                    self.ui.mouse.release(*btn);
                }
                LoopAction::Continue
            },
            PixEvent::MouseMotion(x, y) => {
                let cx = clamp_i32(*x, -0x10000, 0x10000);
                let cy = clamp_i32(*y, -0x10000, 0x10000);
                self.ui.mouse.set_pos(cx, cy);
                LoopAction::Continue
            },
            PixEvent::MouseWheel(delta) => {
                let moved: i64 = self.ui.mouse.yrel as i64 + *delta as i64;
                self.ui.mouse.yrel = clamp_wide(moved);
                LoopAction::Continue
            },
            PixEvent::TextInput(text) => {
                self.ui.edit_type(text.as_str());
                LoopAction::Continue
            },
            PixEvent::Focus(_) => LoopAction::Continue,
        }
    }

    /// Ends the frame: clears the entered key, the clicked buttons and
    /// the relative motion, remembers this frame's pointer position as
    /// the previous one, drops the frame's cursor request, and returns
    /// the layout cursor to the frame padding for the next frame's
    /// widget sequence. Held keys and buttons, and all interaction
    /// state, persist into the next frame.
    pub fn end_frame(&mut self)
        requires
            old(self).wf(),
        ensures
            final(self).wf(),
            final(self).ui.pmouse_x == old(self).ui.mouse.xpos,
            final(self).ui.pmouse_y == old(self).ui.mouse.ypos,
            final(self).ui.keys.entered is None,
            final(self).ui.keys.pressed == old(self).ui.keys.pressed,
            final(self).ui.keys == (crate::input::KeyState { entered: None, ..old(self).ui.keys }),
            final(self).ui.mouse == (crate::input::MouseState {
                xrel: 0,
                yrel: 0,
                left_clicked: false,
                middle_clicked: false,
                right_clicked: false,
                ..old(self).ui.mouse
            }),
            final(self).ui.active == old(self).ui.active,
            final(self).ui.focused == old(self).ui.focused,
            final(self).ui.hovered == old(self).ui.hovered,
            final(self).ui.editing == old(self).ui.editing,
            final(self).ui.scroll_map@ == old(self).ui.scroll_map@,
            final(self).frame_cursor is None,
            final(self).setting_stack@ == old(self).setting_stack@,
            final(self).ui.cursor_stack@ == old(self).ui.cursor_stack@,
            final(self).ui.id_stack@ == old(self).ui.id_stack@,
            final(self).ui.cursor_x == old(self).theme.style.frame_pad_x,
            final(self).ui.cursor_y == old(self).theme.style.frame_pad_y,
    {
        self.ui.end_frame();
        let px = self.theme.style.frame_pad_x;
        let py = self.theme.style.frame_pad_y;
        self.ui.set_cursor_pos(px, py);
        self.frame_cursor = None;
    }
}

/// An `i64` clamped into the `i32` range.
fn clamp_wide(v: i64) -> (r: i32)
    ensures
        r == vstd::math::max(i32::MIN as int, vstd::math::min(v as int, i32::MAX as int)),
{
    if v < i32::MIN as i64 {
        i32::MIN
    } else if v > i32::MAX as i64 {
        i32::MAX
    } else {
        v as i32
    }
}

} // verus!
