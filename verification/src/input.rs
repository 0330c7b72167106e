//! The per-frame input snapshot: mouse and keyboard state folded from
//! platform events once per tick and read-only during widget calls.

use vstd::prelude::*;
use crate::event::{Key, KeyMod, Mouse};

verus! {

/// Mouse state carried between and within frames: position, relative
/// motion, held buttons, buttons clicked this frame and when each button
/// was last clicked.
#[derive(Debug, Clone, PartialEq, Eq, Structural)]
pub struct MouseState {
    /// Current position.
    pub xpos: i32,
    /// Current position.
    pub ypos: i32,
    /// Horizontal motion accumulated this frame.
    pub xrel: i32,
    /// Vertical motion accumulated this frame.
    pub yrel: i32,
    /// Whether the left button is held.
    pub left_down: bool,
    /// Whether the middle button is held.
    pub middle_down: bool,
    /// Whether the right button is held.
    pub right_down: bool,
    /// Whether the left button was clicked this frame.
    pub left_clicked: bool,
    /// Whether the middle button was clicked this frame.
    pub middle_clicked: bool,
    /// Whether the right button was clicked this frame.
    pub right_clicked: bool,
    /// When the left button was last clicked, if ever.
    pub left_last: Option<u64>,
    /// When the middle button was last clicked, if ever.
    pub middle_last: Option<u64>,
    /// When the right button was last clicked, if ever.
    pub right_last: Option<u64>,
}

impl MouseState {
    /// Whether `btn` is currently held, as a specification.
    pub open spec fn spec_is_down(&self, btn: Mouse) -> bool {
        match btn {
            Mouse::Left => self.left_down,
            Mouse::Middle => self.middle_down,
            Mouse::Right => self.right_down,
        }
    }

    /// Whether `btn` was clicked this frame, as a specification.
    pub open spec fn spec_was_clicked(&self, btn: Mouse) -> bool {
        match btn {
            Mouse::Left => self.left_clicked,
            Mouse::Middle => self.middle_clicked,
            Mouse::Right => self.right_clicked,
        }
    }

    /// When `btn` was last clicked, as a specification.
    pub open spec fn spec_last_clicked(&self, btn: Mouse) -> Option<u64> {
        match btn {
            Mouse::Left => self.left_last,
            Mouse::Middle => self.middle_last,
            Mouse::Right => self.right_last,
        }
    }

    /// A fresh snapshot: origin position, nothing held, nothing clicked.
    pub fn new() -> (m: MouseState)
        ensures
            m == MouseState::spec_default(),
    {
        MouseState {
            xpos: 0,
            ypos: 0,
            xrel: 0,
            yrel: 0,
            left_down: false,
            middle_down: false,
            right_down: false,
            left_clicked: false,
            middle_clicked: false,
            right_clicked: false,
            left_last: None,
            middle_last: None,
            right_last: None,
        }
    }

    /// The fresh snapshot value.
    pub open spec fn spec_default() -> MouseState {
        MouseState {
            xpos: 0,
            ypos: 0,
            xrel: 0,
            yrel: 0,
            left_down: false,
            middle_down: false,
            right_down: false,
            left_clicked: false,
            middle_clicked: false,
            right_clicked: false,
            left_last: None,
            middle_last: None,
            right_last: None,
        }
    }

    /// Clears transient per-frame state: the clicked set and the relative
    /// motion; held buttons, position and click times persist.
    pub fn clear(&mut self)
        ensures
            *final(self) == (MouseState {
                xrel: 0,
                yrel: 0,
                left_clicked: false,
                middle_clicked: false,
                right_clicked: false,
                ..*old(self)
            }),
    {
        self.xrel = 0;
        self.yrel = 0;
        self.left_clicked = false;
        self.middle_clicked = false;
        self.right_clicked = false;
    }

    /// The current position as `(x, y)`.
    pub fn pos(&self) -> (p: (i32, i32))
        ensures
            p == (self.xpos, self.ypos),
    {
        (self.xpos, self.ypos)
    }

    /// Moves the position, accumulating the relative motion of this frame;
    /// the motion saturates rather than wrapping.
    pub fn set_pos(&mut self, x: i32, y: i32)
        ensures
            final(self).xpos == x,
            final(self).ypos == y,
            *final(self) == (MouseState {
                xpos: x,
                ypos: y,
                xrel: final(self).xrel,
                yrel: final(self).yrel,
                ..*old(self)
            }),
    {
        let dx = saturating_sub_i32(x, self.xpos);
        let dy = saturating_sub_i32(y, self.ypos);
        self.xrel = saturating_add_i32(self.xrel, dx);
        self.yrel = saturating_add_i32(self.yrel, dy);
        self.xpos = x;
        self.ypos = y;
    }

    /// Whether any button is held.
    pub fn is_pressed(&self) -> (r: bool)
        ensures
            r == (self.left_down || self.middle_down || self.right_down),
    {
        self.left_down || self.middle_down || self.right_down
    }

    /// Whether `btn` is currently held.
    pub fn is_down(&self, btn: Mouse) -> (r: bool)
        ensures
            r == self.spec_is_down(btn),
    {
        match btn {
            Mouse::Left => self.left_down,
            Mouse::Middle => self.middle_down,
            Mouse::Right => self.right_down,
        }
    }

    /// Marks `btn` held.
    pub fn press(&mut self, btn: Mouse)
        ensures
            final(self).spec_is_down(btn),
            forall|b: Mouse| b != btn ==> final(self).spec_is_down(b) == old(self).spec_is_down(b),
            forall|b: Mouse| final(self).spec_was_clicked(b) == old(self).spec_was_clicked(b),
            forall|b: Mouse| final(self).spec_last_clicked(b) == old(self).spec_last_clicked(b),
            final(self).xpos == old(self).xpos && final(self).ypos == old(self).ypos,
            final(self).xrel == old(self).xrel && final(self).yrel == old(self).yrel,
    {
        match btn {
            Mouse::Left => self.left_down = true,
            Mouse::Middle => self.middle_down = true,
            Mouse::Right => self.right_down = true,
        }
    }

    /// Marks `btn` released.
    pub fn release(&mut self, btn: Mouse)
        ensures
            !final(self).spec_is_down(btn),
            forall|b: Mouse| b != btn ==> final(self).spec_is_down(b) == old(self).spec_is_down(b),
            forall|b: Mouse| final(self).spec_was_clicked(b) == old(self).spec_was_clicked(b),
            forall|b: Mouse| final(self).spec_last_clicked(b) == old(self).spec_last_clicked(b),
            final(self).xpos == old(self).xpos && final(self).ypos == old(self).ypos,
            final(self).xrel == old(self).xrel && final(self).yrel == old(self).yrel,
    {
        match btn {
            Mouse::Left => self.left_down = false,
            Mouse::Middle => self.middle_down = false,
            Mouse::Right => self.right_down = false,
        }
    }

    /// Records a click of `btn` at time `time`.
    pub fn click(&mut self, btn: Mouse, time: u64)
        ensures
            final(self).spec_was_clicked(btn),
            final(self).spec_last_clicked(btn) == Some(time),
            forall|b: Mouse|
                b != btn ==> final(self).spec_was_clicked(b) == old(self).spec_was_clicked(b),
            forall|b: Mouse|
                b != btn ==> final(self).spec_last_clicked(b) == old(self).spec_last_clicked(b),
            forall|b: Mouse| final(self).spec_is_down(b) == old(self).spec_is_down(b),
            final(self).xpos == old(self).xpos && final(self).ypos == old(self).ypos,
            final(self).xrel == old(self).xrel && final(self).yrel == old(self).yrel,
    {
        match btn {
            Mouse::Left => {
                self.left_clicked = true;
                self.left_last = Some(time);
            },
            Mouse::Middle => {
                self.middle_clicked = true;
                self.middle_last = Some(time);
            },
            Mouse::Right => {
                self.right_clicked = true;
                self.right_last = Some(time);
            },
        }
    }

    /// Whether `btn` was clicked this frame.
    pub fn was_clicked(&self, btn: Mouse) -> (r: bool)
        ensures
            r == self.spec_was_clicked(btn),
    {
        match btn {
            Mouse::Left => self.left_clicked,
            Mouse::Middle => self.middle_clicked,
            Mouse::Right => self.right_clicked,
        }
    }

    /// When `btn` was last clicked, if ever.
    pub fn last_clicked(&self, btn: Mouse) -> (r: Option<u64>)
        ensures
            r == self.spec_last_clicked(btn),
    {
        match btn {
            Mouse::Left => self.left_last,
            Mouse::Middle => self.middle_last,
            Mouse::Right => self.right_last,
        }
    }
}

/// `a - b` clamped at the `i32` limits.
fn saturating_sub_i32(a: i32, b: i32) -> (r: i32)
    ensures
        a - b >= i32::MIN && a - b <= i32::MAX ==> r == a - b,
        a - b < i32::MIN ==> r == i32::MIN,
        a - b > i32::MAX ==> r == i32::MAX,
{
    let wide: i64 = a as i64 - b as i64;
    if wide < i32::MIN as i64 {
        i32::MIN
    } else if wide > i32::MAX as i64 {
        i32::MAX
    } else {
        wide as i32
    }
}

/// `a + b` clamped at the `i32` limits.
fn saturating_add_i32(a: i32, b: i32) -> (r: i32)
    ensures
        a + b >= i32::MIN && a + b <= i32::MAX ==> r == a + b,
        a + b < i32::MIN ==> r == i32::MIN,
        a + b > i32::MAX ==> r == i32::MAX,
{
    let wide: i64 = a as i64 + b as i64;
    if wide < i32::MIN as i64 {
        i32::MIN
    } else if wide > i32::MAX as i64 {
        i32::MAX
    } else {
        wide as i32
    }
}

/// Keyboard state carried between frames: the key entered this frame, the
/// set of held keys and the set of held modifiers.
#[derive(Debug, Clone)]
pub struct KeyState {
    /// The key that went down this frame, if any.
    pub entered: Option<Key>,
    /// Every key currently held, each at most once.
    pub pressed: Vec<Key>,
    /// Whether a key was pressed with no modifier held.
    pub mod_none: bool,
    /// Whether control is held.
    pub mod_ctrl: bool,
    /// Whether shift is held.
    pub mod_shift: bool,
    /// Whether alt is held.
    pub mod_alt: bool,
    /// Whether the logo / command key is held.
    pub mod_gui: bool,
}

impl KeyState {
    /// The held-key list mentions each key at most once.
    pub open spec fn wf(&self) -> bool {
        forall|i: int, j: int|
            0 <= i < j < self.pressed@.len() ==> self.pressed@[i] != self.pressed@[j]
    }

    /// Whether `key` is held, as a specification.
    pub open spec fn spec_is_down(&self, key: Key) -> bool {
        self.pressed@.contains(key)
    }

    /// Whether `keymod` is held, as a specification.
    pub open spec fn spec_mod_down(&self, keymod: KeyMod) -> bool {
        match keymod {
            KeyMod::NoMod => self.mod_none,
            KeyMod::Ctrl => self.mod_ctrl,
            KeyMod::Shift => self.mod_shift,
            KeyMod::Alt => self.mod_alt,
            KeyMod::Gui => self.mod_gui,
        }
    }

    /// A fresh keyboard state: nothing entered, nothing held.
    pub fn new() -> (k: KeyState)
        ensures
            k.wf(),
            k.entered is None,
            k.pressed@.len() == 0,
            forall|m: KeyMod| !k.spec_mod_down(m),
    {
        KeyState {
            entered: None,
            pressed: Vec::new(),
            mod_none: false,
            mod_ctrl: false,
            mod_shift: false,
            mod_alt: false,
            mod_gui: false,
        }
    }

    /// Whether any key is held.
    pub fn is_pressed(&self) -> (r: bool)
        ensures
            r == (self.pressed@.len() != 0),
    {
        self.pressed.len() != 0
    }

    /// Whether `key` is held.
    pub fn is_down(&self, key: Key) -> (r: bool)
        ensures
            r == self.spec_is_down(key),
    {
        let mut i: usize = 0;
        while i < self.pressed.len()
            invariant
                i <= self.pressed@.len(),
                forall|j: int| 0 <= j < i ==> self.pressed@[j] != key,
            decreases self.pressed@.len() - i,
        {
            if self.pressed[i] == key {
                return true;
            }
            i = i + 1;
        }
        false
    }

    /// Whether `key` was the key entered this frame.
    pub fn was_entered(&self, key: Key) -> (r: bool)
        ensures
            r == (self.entered == Some(key)),
    {
        match self.entered {
            Some(k) => k == key,
            None => false,
        }
    }

    /// Whether `keymod` is held.
    pub fn mod_down(&self, keymod: KeyMod) -> (r: bool)
        ensures
            r == self.spec_mod_down(keymod),
    {
        match keymod {
            KeyMod::NoMod => self.mod_none,
            KeyMod::Ctrl => self.mod_ctrl,
            KeyMod::Shift => self.mod_shift,
            KeyMod::Alt => self.mod_alt,
            KeyMod::Gui => self.mod_gui,
        }
    }

    /// Records `key` going down with `keymod` held: the key becomes the
    /// one entered this frame and joins the held set, and the modifier
    /// joins the held modifiers.
    pub fn press(&mut self, key: Key, keymod: KeyMod)
        requires
            old(self).wf(),
        ensures
            final(self).wf(),
            final(self).entered == Some(key),
            final(self).spec_is_down(key),
            forall|k: Key|
                k != key ==> final(self).spec_is_down(k) == old(self).spec_is_down(k),
            final(self).spec_mod_down(keymod),
            forall|m: KeyMod|
                m != keymod ==> final(self).spec_mod_down(m) == old(self).spec_mod_down(m),
    {
        self.entered = Some(key);
        let had = self.is_down(key);
        let ghost pre = self.pressed@;
        if !had {
            self.pressed.push(key);
        }
        match keymod {
            KeyMod::NoMod => self.mod_none = true,
            KeyMod::Ctrl => self.mod_ctrl = true,
            KeyMod::Shift => self.mod_shift = true,
            KeyMod::Alt => self.mod_alt = true,
            KeyMod::Gui => self.mod_gui = true,
        }
        proof {
            if !had {
                assert(self.pressed@[pre.len() as int] == key);
                assert(self.pressed@.contains(key));
                assert forall|k: Key| #[trigger] self.spec_is_down(k) implies k == key || old(
                    self,
                ).spec_is_down(k) by {
                    let idx = choose|idx: int|
                        0 <= idx < self.pressed@.len() && self.pressed@[idx] == k;
                    if idx < pre.len() {
                        assert(pre[idx] == k);
                    }
                }
                assert forall|k: Key| old(self).spec_is_down(k) implies #[trigger] self.spec_is_down(
                    k,
                ) by {
                    let idx = choose|idx: int| 0 <= idx < pre.len() && pre[idx] == k;
                    assert(self.pressed@[idx] == k);
                }
                assert forall|i: int, j: int|
                    0 <= i < j < self.pressed@.len() implies self.pressed@[i]
                    != self.pressed@[j] by {
                    if j == pre.len() {
                        assert(pre[i] == self.pressed@[i]);
                        if pre[i] == key {
                            assert(pre.contains(key));
                        }
                    }
                }
            } else {
                assert(self.pressed@ == old(self).pressed@);
            }
        }
    }

    /// Records `key` going up with `keymod` held: the key leaves the held
    /// set and the modifier leaves the held modifiers.
    pub fn release(&mut self, key: Key, keymod: KeyMod)
        requires
            old(self).wf(),
        ensures
            final(self).wf(),
            !final(self).spec_is_down(key),
            forall|k: Key|
                k != key ==> final(self).spec_is_down(k) == old(self).spec_is_down(k),
            !final(self).spec_mod_down(keymod),
            forall|m: KeyMod|
                m != keymod ==> final(self).spec_mod_down(m) == old(self).spec_mod_down(m),
            final(self).entered == old(self).entered,
    {
        let ghost pre = self.pressed@;
        let mut kept: Vec<Key> = Vec::new();
        let mut i: usize = 0;
        while i < self.pressed.len()
            invariant
                self.pressed@ == pre,
                i <= pre.len(),
                forall|k: Key| #[trigger] kept@.contains(k) ==> k != key,
                forall|j: int| 0 <= j < i && pre[j] != key ==> kept@.contains(#[trigger] pre[j]),
                forall|a: int, b: int| 0 <= a < b < kept@.len() ==> kept@[a] != kept@[b],
                old(self).wf(),
                forall|a: int|
                    0 <= a < kept@.len() ==> exists|j: int| 0 <= j < i && pre[j] == #[trigger] kept@[a],
            decreases pre.len() - i,
        {
            let k = self.pressed[i];
            if !(k == key) {
                let ghost kpre = kept@;
                proof {
                    if kept@.contains(k) {
                        let a = choose|a: int| 0 <= a < kpre.len() && kpre[a] == k;
                        let j = choose|j: int| 0 <= j < i && pre[j] == kpre[a];
                        assert(pre[j] == pre[i as int]);
                        assert(false);
                    }
                }
                kept.push(k);
                proof {
                    assert(kept@[kpre.len() as int] == k);
                    assert forall|x: Key| kpre.contains(x) implies #[trigger] kept@.contains(x) by {
                        let a = choose|a: int| 0 <= a < kpre.len() && kpre[a] == x;
                        assert(kept@[a] == x);
                    }
                    assert forall|x: Key| #[trigger] kept@.contains(x) implies kpre.contains(x) || x
                        == k by {
                        let a = choose|a: int| 0 <= a < kept@.len() && kept@[a] == x;
                        if a < kpre.len() {
                            assert(kpre[a] == x);
                        }
                    }
                    assert(kept@.contains(k));
                }
            }
            i = i + 1;
        }
        self.pressed = kept;
        match keymod {
            KeyMod::NoMod => self.mod_none = false,
            KeyMod::Ctrl => self.mod_ctrl = false,
            KeyMod::Shift => self.mod_shift = false,
            KeyMod::Alt => self.mod_alt = false,
            KeyMod::Gui => self.mod_gui = false,
        }
        proof {
            assert forall|k: Key| k != key implies (self.spec_is_down(k) == old(
                self,
            ).spec_is_down(k)) by {
                if old(self).spec_is_down(k) {
                    let j = choose|j: int| 0 <= j < pre.len() && pre[j] == k;
                    assert(self.pressed@.contains(pre[j]));
                }
                if self.spec_is_down(k) {
                    let a = choose|a: int| 0 <= a < self.pressed@.len() && self.pressed@[a] == k;
                    let j = choose|j: int| 0 <= j < pre.len() && pre[j] == self.pressed@[a];
                    assert(pre.contains(k));
                }
            }
            assert(!self.spec_is_down(key)) by {
                if self.pressed@.contains(key) {
                    assert(false);
                }
            }
        }
    }
}

} // verus!
