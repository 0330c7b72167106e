//! The frame-step engine core: event folding, frame boundaries and the
//! frame clock.

use pix_engine::engine::{FrameClock, LoopAction};
use pix_engine::event::{Key, KeyMod, Mouse, PixEvent};
use pix_engine::state::PixState;
use pix_engine::window::{Cursor, Position, SystemCursor, WindowBuilder};

#[test]
fn quit_events_stop_the_loop() {
    let mut s = PixState::new(100, 100);
    assert_eq!(s.on_event(&PixEvent::Quit, 0), LoopAction::Quit);
    assert_eq!(s.on_event(&PixEvent::AppTerminating, 0), LoopAction::Quit);
    assert_eq!(s.on_event(&PixEvent::WinClose(1), 0), LoopAction::Quit);
    assert_eq!(s.on_event(&PixEvent::WinClose(4), 0), LoopAction::CloseWindow(4));
}

#[test]
fn input_events_fold_into_the_snapshot() {
    let mut s = PixState::new(100, 100);
    s.on_event(&PixEvent::KeyPress(Key::Space, true, KeyMod::Shift), 0);
    assert!(s.key_down(Key::Space));
    assert!(s.key_pressed());
    assert!(s.keymod_down(KeyMod::Shift));
    s.on_event(&PixEvent::KeyPress(Key::Space, false, KeyMod::Shift), 0);
    assert!(!s.key_down(Key::Space));

    s.on_event(&PixEvent::MouseMotion(40, 50), 0);
    assert_eq!(s.mouse_pos(), (40, 50));
    s.on_event(&PixEvent::MousePress(Mouse::Left, 40, 50, true), 99);
    assert!(s.mouse_down(Mouse::Left));
    assert!(s.mouse_pressed());
    assert!(s.ui.mouse.was_clicked(Mouse::Left));
    assert_eq!(s.ui.mouse.last_clicked(Mouse::Left), Some(99));
    s.on_event(&PixEvent::MousePress(Mouse::Left, 40, 50, false), 100);
    assert!(!s.mouse_down(Mouse::Left));
}

#[test]
fn end_frame_clears_transients_and_keeps_held_state() {
    let mut s = PixState::new(100, 100);
    s.on_event(&PixEvent::KeyPress(Key::Tab, true, KeyMod::NoMod), 0);
    s.on_event(&PixEvent::MouseMotion(10, 20), 0);
    s.on_event(&PixEvent::MousePress(Mouse::Right, 10, 20, true), 5);
    s.end_frame();
    assert_eq!(s.ui.keys.entered, None);
    assert!(s.key_down(Key::Tab));
    assert!(s.mouse_down(Mouse::Right));
    assert!(!s.ui.mouse.was_clicked(Mouse::Right));
    assert_eq!(s.pmouse_pos(), (10, 20));
    assert_eq!(s.ui.mouse.xrel, 0);
    assert_eq!(s.ui.mouse.yrel, 0);
}

#[test]
fn frame_clock_emits_once_per_second() {
    let mut clock = FrameClock::new();
    let frame = 100_000_000u64; // a tenth of a second
    for _ in 0..9 {
        assert_eq!(clock.tick(frame), None);
    }
    assert_eq!(clock.tick(frame), Some(10));
    assert_eq!(clock.tick(frame), None);
}

#[test]
fn titles_are_stored_for_the_driver() {
    let mut s = PixState::new(100, 100);
    assert_eq!(s.title(), "");
    s.set_title("demo");
    assert_eq!(s.title(), "demo");
}

#[test]
fn cursors_and_window_settings_build() {
    assert_eq!(Cursor::arrow(), Cursor::System(SystemCursor::Arrow));
    assert_eq!(Cursor::ibeam(), Cursor::System(SystemCursor::IBeam));
    assert_eq!(Cursor::no(), Cursor::System(SystemCursor::No));
    assert_eq!(Cursor::hand(), Cursor::System(SystemCursor::Hand));
    assert_eq!(Cursor::new("icon.png"), Cursor::Image(String::from("icon.png")));

    let mut b = WindowBuilder::new();
    b.with_dimensions(800, 600);
    b.with_title("window");
    b.position(3, 4);
    b.resizable();
    b.borderless();
    b.fullscreen();
    b.icon("icon.png");
    assert_eq!(b.settings.width, 800);
    assert_eq!(b.settings.height, 600);
    assert_eq!(b.settings.title, "window");
    assert_eq!(b.settings.x, Position::Positioned(3));
    assert!(b.settings.resizable && b.settings.borderless && b.settings.fullscreen);
    b.position_centered();
    assert_eq!(b.settings.y, Position::Centered);
}

#[test]
fn widget_colors_follow_the_opacity_table() {
    let s = PixState::new(100, 100);
    let id = s.ui.get_id("plain");
    let colors = s.widget_colors(id, pix_engine::gui::theme::ColorType::Background);
    let bg = s.theme.colors.background;
    let overlay = s.theme.colors.on_background;
    // Idle on an unbranded surface: a 38% stroke, the plain background,
    // and an 87% foreground.
    let mix = |a: u8, b: u8, pct: u32| ((pct * a as u32 + (100 - pct) * b as u32) / 100) as u8;
    assert_eq!(colors[0].r, mix(overlay.r, bg.r, 38));
    assert_eq!(colors[1], bg);
    assert_eq!(colors[2].g, mix(overlay.g, bg.g, 87));
}
