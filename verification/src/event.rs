//! Keys, mouse buttons, modifier keys and the platform events the engine
//! folds into its per-frame input snapshot.

use vstd::prelude::*;

verus! {

/// A keyboard key the engine can track.
#[derive(Debug, Copy, Clone, PartialEq, Eq, Structural, Hash)]
pub enum Key {
    /// Up arrow.
    Up,
    /// Down arrow.
    Down,
    /// Left arrow.
    Left,
    /// Right arrow.
    Right,
    /// Return / Enter.
    Return,
    /// Escape.
    Escape,
    /// Backspace.
    Backspace,
    /// Tab.
    Tab,
    /// Space bar.
    Space,
    /// Minus / hyphen.
    Minus,
    /// Period / full stop.
    Period,
    /// A letter key, `0` for `A` through `25` for `Z`.
    Letter(u8),
    /// A digit key, `0` through `9`.
    Digit(u8),
    /// Any key the engine does not track specially.
    Unknown,
}

/// A modifier key.
#[derive(Debug, Copy, Clone, PartialEq, Eq, Structural, Hash)]
pub enum KeyMod {
    /// No modifier held.
    NoMod,
    /// Control.
    Ctrl,
    /// Shift.
    Shift,
    /// Alt.
    Alt,
    /// The platform logo / command key.
    Gui,
}

/// A mouse button.
#[derive(Debug, Copy, Clone, PartialEq, Eq, Structural, Hash)]
pub enum Mouse {
    /// The primary button.
    Left,
    /// The wheel button.
    Middle,
    /// The secondary button.
    Right,
}

/// One platform event, carried as plain values the engine core folds
/// into its input snapshot.
#[derive(Debug, Clone, PartialEq, Eq)]
pub enum PixEvent {
    /// The application was asked to quit.
    Quit,
    /// The platform is about to terminate the application.
    AppTerminating,
    /// The window with the given id was closed.
    WinClose(u32),
    /// A key went down (`true`) or up (`false`), with the modifier held.
    KeyPress(Key, bool, KeyMod),
    /// A mouse button went down (`true`) or up (`false`) at `(x, y)`.
    MousePress(Mouse, i32, i32, bool),
    /// The mouse moved to `(x, y)`.
    MouseMotion(i32, i32),
    /// The mouse wheel turned by the given amount.
    MouseWheel(i32),
    /// Text was typed; it feeds a running inline edit.
    TextInput(String),
    /// The window gained (`true`) or lost (`false`) input focus.
    Focus(bool),
}

} // verus!
