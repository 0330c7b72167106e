//! Window configuration: screen positions, cursors and the window builder
//! whose settings the platform layer consumes at startup.

use vstd::prelude::*;
use vstd::string::StringExecFns;

verus! {

/// A possible screen position.
#[derive(Debug, Copy, Clone, PartialEq, Eq, Structural, Hash)]
pub enum Position {
    /// A positioned coordinate.
    Positioned(i32),
    /// A coordinate placed in the center of the display.
    Centered,
}

impl Default for Position {
    /// The default position: centered.
    fn default() -> (r: Position)
        ensures
            r == Position::Centered,
    {
        Position::Centered
    }
}

/// A window identifier.
pub type WindowId = usize;

/// A window cursor indicating the position of the mouse.
#[derive(Debug, Clone, PartialEq, Eq, Hash)]
pub enum Cursor {
    /// A system-supplied cursor such as the arrow or the hand.
    System(SystemCursor),
    /// A custom cursor loaded from an image path.
    Image(String),
}

impl Default for Cursor {
    /// The default cursor: the system arrow.
    fn default() -> (r: Cursor)
        ensures
            r == Cursor::System(SystemCursor::Arrow),
    {
        Cursor::System(SystemCursor::Arrow)
    }
}

impl Cursor {
    /// Constructs a cursor from an image path.
    pub fn new(path: &str) -> (r: Cursor)
        ensures
            r matches Cursor::Image(p) && p@ == path@,
    {
        Cursor::Image(String::from_str(path))
    }

    /// The system arrow cursor.
    pub fn arrow() -> (r: Cursor)
        ensures
            r == Cursor::System(SystemCursor::Arrow),
    {
        Cursor::System(SystemCursor::Arrow)
    }

    /// The system I-beam cursor.
    pub fn ibeam() -> (r: Cursor)
        ensures
            r == Cursor::System(SystemCursor::IBeam),
    {
        Cursor::System(SystemCursor::IBeam)
    }

    /// The system "not allowed" cursor.
    pub fn no() -> (r: Cursor)
        ensures
            r == Cursor::System(SystemCursor::No),
    {
        Cursor::System(SystemCursor::No)
    }

    /// The system hand cursor.
    pub fn hand() -> (r: Cursor)
        ensures
            r == Cursor::System(SystemCursor::Hand),
    {
        Cursor::System(SystemCursor::Hand)
    }
}

/// A system cursor icon.
#[derive(Debug, Copy, Clone, PartialEq, Eq, Structural, Hash)]
pub enum SystemCursor {
    /// Default arrow cursor.
    Arrow,
    /// Vertical I-beam, typically for text input.
    IBeam,
    /// Hour-glass, typically a loading indicator.
    Wait,
    /// Cross-hair.
    Crosshair,
    /// Hour-glass and arrow combined.
    WaitArrow,
    /// Resize arrows oriented north-west to south-east.
    SizeNWSE,
    /// Resize arrows oriented north-east to south-west.
    SizeNESW,
    /// Resize arrows oriented west to east.
    SizeWE,
    /// Resize arrows oriented north to south.
    SizeNS,
    /// Resize arrows in all cardinal directions.
    SizeAll,
    /// Circle with a line through it.
    No,
    /// Hand, typically a clickable indicator.
    Hand,
}

/// The plain settings a window is created from; the platform layer
/// consumes them once at startup.
#[derive(Debug, Clone, PartialEq, Eq)]
pub struct WindowSettings {
    /// The window title.
    pub title: String,
    /// The horizontal position.
    pub x: Position,
    /// The vertical position.
    pub y: Position,
    /// The window width in pixels.
    pub width: u32,
    /// The window height in pixels.
    pub height: u32,
    /// Whether the window starts fullscreen.
    pub fullscreen: bool,
    /// Whether frame presentation waits for the display's refresh.
    pub vsync: bool,
    /// Whether the window can be resized.
    pub resizable: bool,
    /// Whether the window has no decoration.
    pub borderless: bool,
    /// A window icon image path, if any.
    pub icon: Option<String>,
}

/// Builds the settings of a new window.
#[derive(Debug)]
pub struct WindowBuilder {
    /// The settings collected so far.
    pub settings: WindowSettings,
}

impl WindowBuilder {
    /// Starts from the default settings: an untitled, centered,
    /// 640 by 480, windowed, decorated, fixed-size window.
    pub fn new() -> (r: WindowBuilder)
        ensures
            r.settings.title@ == Seq::<char>::empty(),
            r.settings.x == Position::Centered,
            r.settings.y == Position::Centered,
            r.settings.width == 640,
            r.settings.height == 480,
            !r.settings.fullscreen,
            !r.settings.vsync,
            !r.settings.resizable,
            !r.settings.borderless,
            r.settings.icon is None,
    {
        WindowBuilder {
            settings: WindowSettings {
                title: String::new(),
                x: Position::Centered,
                y: Position::Centered,
                width: 640,
                height: 480,
                fullscreen: false,
                vsync: false,
                resizable: false,
                borderless: false,
                icon: None,
            },
        }
    }

    /// Sets the window dimensions.
    pub fn with_dimensions(&mut self, width: u32, height: u32)
        ensures
            *final(self) == (WindowBuilder {
                settings: (WindowSettings { width, height, ..old(self).settings }),
            }),
    {
        self.settings.width = width;
        self.settings.height = height;
    }

    /// Sets the window title.
    pub fn with_title(&mut self, title: &str)
        ensures
            final(self).settings.title@ == title@,
            final(self).settings == (WindowSettings {
                title: final(self).settings.title,
                ..old(self).settings
            }),
    {
        self.settings.title = String::from_str(title);
    }

    /// Positions the window at the given display coordinates.
    pub fn position(&mut self, x: i32, y: i32)
        ensures
            *final(self) == (WindowBuilder {
                settings: (WindowSettings {
                    x: Position::Positioned(x),
                    y: Position::Positioned(y),
                    ..old(self).settings
                }),
            }),
    {
        self.settings.x = Position::Positioned(x);
        self.settings.y = Position::Positioned(y);
    }

    /// Positions the window in the center of the display.
    pub fn position_centered(&mut self)
        ensures
            *final(self) == (WindowBuilder {
                settings: (WindowSettings {
                    x: Position::Centered,
                    y: Position::Centered,
                    ..old(self).settings
                }),
            }),
    {
        self.settings.x = Position::Centered;
        self.settings.y = Position::Centered;
    }

    /// Starts the window in fullscreen mode.
    pub fn fullscreen(&mut self)
        ensures
            *final(self) == (WindowBuilder {
                settings: (WindowSettings { fullscreen: true, ..old(self).settings }),
            }),
    {
        self.settings.fullscreen = true;
    }

    /// Allows resizing the window.
    pub fn resizable(&mut self)
        ensures
            *final(self) == (WindowBuilder {
                settings: (WindowSettings { resizable: true, ..old(self).settings }),
            }),
    {
        self.settings.resizable = true;
    }

    /// Removes the window decoration.
    pub fn borderless(&mut self)
        ensures
            *final(self) == (WindowBuilder {
                settings: (WindowSettings { borderless: true, ..old(self).settings }),
            }),
    {
        self.settings.borderless = true;
    }

    /// Sets a window icon image path.
    pub fn icon(&mut self, path: &str)
        ensures
            final(self).settings.icon is Some,
            final(self).settings.icon->0@ == path@,
            final(self).settings == (WindowSettings {
                icon: final(self).settings.icon,
                ..old(self).settings
            }),
    {
        self.settings.icon = Some(String::from_str(path));
    }
}

} // verus!
