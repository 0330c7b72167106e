//! The GUI runtime: element identity, the interaction store's exclusivity
//! and capture rules, widget behavior and the numeric parser.

use pix_engine::event::{Key, KeyMod, Mouse, PixEvent};
use pix_engine::gui::state::{element_id_of, label_text, parse_i64, UiState};
use pix_engine::gui::widgets::slider::int_to_decimal;
use pix_engine::gui::Rect;
use pix_engine::state::PixState;

#[test]
fn disambiguated_ids_differ_and_repeat() {
    let stack: Vec<u64> = Vec::new();
    let a1 = element_id_of("Click##a", &stack);
    let a2 = element_id_of("Click##a", &stack);
    let b = element_id_of("Click##b", &stack);
    assert_eq!(a1, a2);
    assert_ne!(a1, b);
    assert_eq!(label_text("Click##a"), "Click");
    assert_eq!(label_text("Click##b"), "Click");
}

#[test]
fn id_depends_on_stack_context() {
    let empty: Vec<u64> = Vec::new();
    let outer = vec![17u64];
    let plain = element_id_of("Click", &empty);
    let nested = element_id_of("Click", &outer);
    assert_ne!(plain, nested);
    assert_eq!(nested, element_id_of("Click", &outer));
}

#[test]
fn id_corpus_has_no_collisions() {
    let stack: Vec<u64> = Vec::new();
    let mut seen: Vec<u64> = Vec::new();
    let letters = [
        "a", "b", "c", "d", "e", "f", "g", "h", "i", "j", "k", "l", "m", "n", "o", "p",
    ];
    for first in letters.iter() {
        for second in letters.iter() {
            let label = format!("widget {}{}", first, second);
            let id = element_id_of(label.as_str(), &stack);
            assert!(!seen.contains(&id));
            seen.push(id);
        }
    }
}

#[test]
fn active_and_focus_are_exclusive() {
    let mut ui = UiState::new();
    ui.focus(3);
    ui.focus(9);
    for id in 0u64..32 {
        if ui.is_focused(id) {
            assert_eq!(id, 9);
        }
        assert!(!ui.is_active(id));
    }
    let rect = Rect::new(0, 0, 10, 10);
    ui.mouse.xpos = 5;
    ui.mouse.ypos = 5;
    ui.mouse.left_down = true;
    assert!(ui.try_hover(7, rect));
    ui.handle_events(7);
    for id in 0u64..32 {
        if ui.is_active(id) {
            assert_eq!(id, 7);
        }
    }
}

#[test]
fn capture_persists_while_dragging_outside() {
    let mut ui = UiState::new();
    let rect = Rect::new(0, 0, 10, 10);

    // Press inside the rectangle: the element claims the capture.
    ui.mouse.xpos = 5;
    ui.mouse.ypos = 5;
    ui.mouse.left_down = true;
    ui.try_hover(1, rect);
    ui.handle_events(1);
    assert!(ui.is_active(1));

    // Drag far outside: hover is lost but the capture is kept.
    ui.mouse.xpos = 500;
    ui.mouse.ypos = 500;
    ui.try_hover(1, rect);
    ui.handle_events(1);
    assert!(!ui.is_hovered(1));
    assert!(ui.is_active(1));

    // Release outside: the capture is dropped.
    ui.mouse.left_down = false;
    ui.try_hover(1, rect);
    ui.handle_events(1);
    assert!(!ui.is_active(1));
}

#[test]
fn slider_idle_frame_reports_no_change() {
    let mut s = PixState::new(320, 200);
    let mut value: i64 = 500;
    s.next_width(100);
    let changed = s.slider("volume##s", &mut value, 0, 1000).unwrap();
    assert!(!changed);
    assert_eq!(value, 500);
}

#[test]
fn slider_tracks_mouse_at_three_quarters() {
    let mut s = PixState::new(320, 200);
    let mut value: i64 = 500;
    let id = s.ui.get_id("##s");

    // Press at three quarters across the 100-pixel track, which starts
    // at the frame padding.
    s.on_event(&PixEvent::MouseMotion(83, 20), 0);
    s.on_event(&PixEvent::MousePress(Mouse::Left, 83, 20, true), 0);
    s.next_width(100);
    s.slider("##s", &mut value, 0, 1000).unwrap();
    s.end_frame();
    assert!(s.ui.is_active(id));

    // The captured slider follows the pointer proportionally.
    s.next_width(100);
    let changed = s.slider("##s", &mut value, 0, 1000).unwrap();
    assert!(changed);
    assert_eq!(value, 750);
}

#[test]
fn slider_enters_and_commits_numeric_entry() {
    let mut s = PixState::new(320, 200);
    let mut value: i64 = 42;
    let id = s.ui.get_id("##n");

    // Capture the slider, then ask for numeric entry with control held.
    s.on_event(&PixEvent::MouseMotion(10, 10), 0);
    s.on_event(&PixEvent::MousePress(Mouse::Left, 10, 10, true), 0);
    s.next_width(100);
    s.slider("##n", &mut value, 0, 1000).unwrap();
    s.end_frame();
    s.on_event(&PixEvent::KeyPress(Key::Letter(0), true, KeyMod::Ctrl), 0);
    s.next_width(100);
    s.slider("##n", &mut value, 0, 1000).unwrap();
    s.end_frame();
    assert!(s.ui.is_editing(id));
    assert_eq!(s.ui.text_edit(id), "42");

    // Type a new number and commit it with Return.
    s.ui.set_text_edit(id, String::from("137"));
    s.on_event(&PixEvent::KeyPress(Key::Return, true, KeyMod::NoMod), 0);
    s.next_width(100);
    s.slider("##n", &mut value, 0, 1000).unwrap();
    s.end_frame();
    s.on_event(&PixEvent::KeyPress(Key::Return, false, KeyMod::NoMod), 0);
    s.on_event(&PixEvent::MousePress(Mouse::Left, 10, 10, false), 0);
    s.next_width(100);
    s.slider("##n", &mut value, 0, 1000).unwrap();
    assert_eq!(value, 137);
}

#[test]
fn slider_commit_falls_back_on_parse_failure() {
    let mut s = PixState::new(320, 200);
    let id = s.ui.get_id("##f");
    s.ui.begin_edit(id, "7x");
    s.ui.end_edit();
    let mut value: i64 = 5;
    s.next_width(100);
    s.slider("##f", &mut value, 0, 1000).unwrap();
    assert_eq!(value, 5);
}

#[test]
fn select_list_scroll_keeps_selection_visible() {
    let mut s = PixState::new(640, 480);
    let items: Vec<String> = (0..10).map(|i| format!("item {}", i)).collect();
    let rect = Rect::new(0, 0, 200, 108);
    let line = 20 + 2 * 8;
    let id = UiState::rect_id(rect, &Vec::new());
    let mut selected: Option<usize> = Some(0);

    for _ in 0..9 {
        s.ui.focus(id);
        s.on_event(&PixEvent::KeyPress(Key::Down, true, KeyMod::NoMod), 0);
        s.select_list(rect, "list", &items, 20, &mut selected).unwrap();
        let sel_y = selected.unwrap() as i32 * line;
        let (_, scroll_y) = s.ui.scroll(id);
        assert!(scroll_y <= sel_y);
        assert!(sel_y + line <= scroll_y + rect.height);
        s.end_frame();
    }
    assert_eq!(selected, Some(9));

    // Moving back up pulls the window up symmetrically.
    for _ in 0..9 {
        s.ui.focus(id);
        s.on_event(&PixEvent::KeyPress(Key::Up, true, KeyMod::NoMod), 0);
        s.select_list(rect, "list", &items, 20, &mut selected).unwrap();
        let sel_y = selected.unwrap() as i32 * line;
        let (_, scroll_y) = s.ui.scroll(id);
        assert!(scroll_y <= sel_y);
        assert!(sel_y + line <= scroll_y + rect.height);
        s.end_frame();
    }
    assert_eq!(selected, Some(0));
    assert_eq!(s.ui.scroll(id).1, 0);
}

#[test]
fn widget_calls_balance_their_stacks() {
    let mut s = PixState::new(320, 200);
    s.push();
    s.ui.push_cursor();
    let settings_depth = s.setting_stack.len();
    let cursor_depth = s.ui.cursor_stack.len();

    let mut value: i64 = 3;
    let mut flag = false;
    let mut selected: Option<usize> = None;
    let mut offset: i32 = 0;
    let items = vec![String::from("one"), String::from("two")];
    s.button("b").unwrap();
    s.checkbox("c", &mut flag).unwrap();
    s.slider("s", &mut value, 0, 10).unwrap();
    s.drag("d", &mut value, 1).unwrap();
    s.scrollbar(Rect::new(0, 0, 12, 100), 50, &mut offset, pix_engine::gui::Direction::Vertical)
        .unwrap();
    s.select_list(Rect::new(0, 0, 100, 80), "l", &items, 16, &mut selected).unwrap();

    assert_eq!(s.setting_stack.len(), settings_depth);
    assert_eq!(s.ui.cursor_stack.len(), cursor_depth);
    s.ui.pop_cursor();
    s.pop();
    assert_eq!(s.setting_stack.len(), 0);
    assert_eq!(s.ui.cursor_stack.len(), 0);
}

#[test]
fn button_clicks_on_release_while_hovered() {
    let mut s = PixState::new(320, 200);

    // Press on the button.
    s.on_event(&PixEvent::MouseMotion(10, 10), 0);
    s.on_event(&PixEvent::MousePress(Mouse::Left, 10, 10, true), 0);
    s.next_width(80);
    assert!(!s.button("ok").unwrap());
    s.end_frame();

    // Release on it: the click lands.
    s.on_event(&PixEvent::MousePress(Mouse::Left, 10, 10, false), 0);
    s.next_width(80);
    assert!(s.button("ok").unwrap());
}

#[test]
fn checkbox_toggles_on_click() {
    let mut s = PixState::new(320, 200);
    let mut flag = false;
    s.on_event(&PixEvent::MouseMotion(10, 10), 0);
    s.on_event(&PixEvent::MousePress(Mouse::Left, 10, 10, true), 0);
    s.checkbox("c", &mut flag).unwrap();
    s.end_frame();
    s.on_event(&PixEvent::MousePress(Mouse::Left, 10, 10, false), 0);
    assert!(s.checkbox("c", &mut flag).unwrap());
    assert!(flag);
}

#[test]
fn drag_moves_with_pointer_motion() {
    let mut s = PixState::new(320, 200);
    let mut value: i64 = 10;
    let id = s.ui.get_id("##d");

    s.on_event(&PixEvent::MouseMotion(10, 10), 0);
    s.on_event(&PixEvent::MousePress(Mouse::Left, 10, 10, true), 0);
    s.next_width(100);
    s.drag("##d", &mut value, 2).unwrap();
    s.end_frame();
    assert!(s.ui.is_active(id));

    s.on_event(&PixEvent::MouseMotion(25, 10), 0);
    s.next_width(100);
    let changed = s.drag("##d", &mut value, 2).unwrap();
    assert!(changed);
    assert_eq!(value, 10 + 15 * 2);
}

#[test]
fn scrollbar_drags_proportionally() {
    let mut s = PixState::new(320, 200);
    let rect = Rect::new(0, 0, 12, 100);
    let id = UiState::rect_id(rect, &Vec::new());
    let mut value: i32 = 0;

    s.on_event(&PixEvent::MouseMotion(5, 50), 0);
    s.on_event(&PixEvent::MousePress(Mouse::Left, 5, 50, true), 0);
    s.scrollbar(rect, 80, &mut value, pix_engine::gui::Direction::Vertical).unwrap();
    s.end_frame();
    assert!(s.ui.is_active(id));

    s.on_event(&PixEvent::MouseMotion(5, 25), 0);
    let changed = s.scrollbar(rect, 80, &mut value, pix_engine::gui::Direction::Vertical)
        .unwrap();
    assert!(changed);
    assert_eq!(value, 25 * 80 / 100);
}

#[test]
fn parse_accepts_signed_decimals() {
    assert_eq!(parse_i64("42"), Some(42));
    assert_eq!(parse_i64("+7"), Some(7));
    assert_eq!(parse_i64("-17"), Some(-17));
    assert_eq!(parse_i64("0"), Some(0));
    assert_eq!(parse_i64("9223372036854775807"), Some(i64::MAX));
    assert_eq!(parse_i64("-9223372036854775808"), Some(i64::MIN));
}

#[test]
fn parse_rejects_junk_and_overflow() {
    assert_eq!(parse_i64(""), None);
    assert_eq!(parse_i64("-"), None);
    assert_eq!(parse_i64("1.5"), None);
    assert_eq!(parse_i64("abc"), None);
    assert_eq!(parse_i64("12a"), None);
    assert_eq!(parse_i64("9223372036854775808"), None);
    assert_eq!(parse_i64("-9223372036854775809"), None);
}

#[test]
fn decimal_text_round_trips() {
    for v in [0i64, 1, -1, 42, -9999, i64::MAX, i64::MIN] {
        assert_eq!(parse_i64(int_to_decimal(v).as_str()), Some(v));
    }
}

#[test]
fn wheel_events_accumulate_relative_motion() {
    let mut s = PixState::new(320, 200);
    s.on_event(&PixEvent::MouseWheel(5), 0);
    s.on_event(&PixEvent::MouseWheel(-2), 0);
    assert_eq!(s.ui.mouse.yrel, 3);
    s.end_frame();
    assert_eq!(s.ui.mouse.yrel, 0);
}

#[test]
fn text_input_feeds_a_running_edit() {
    let mut s = PixState::new(320, 200);
    // Without an edit running, typed text is dropped.
    s.on_event(&PixEvent::TextInput(String::from("9")), 0);
    s.ui.begin_edit(7, "1");
    s.on_event(&PixEvent::TextInput(String::from("2")), 0);
    s.on_event(&PixEvent::TextInput(String::from("5")), 0);
    assert_eq!(s.ui.text_edit(7), "125");
}

#[test]
fn scrollbar_wheel_keeps_offset_in_range() {
    let mut s = PixState::new(320, 200);
    let rect = Rect::new(0, 0, 12, 100);
    let mut value: i32 = 2;
    // Wheel far upward while hovered: the offset stops at zero.
    s.on_event(&PixEvent::MouseMotion(5, 50), 0);
    s.ui.mouse.yrel = 40;
    s.scrollbar(rect, 80, &mut value, pix_engine::gui::Direction::Vertical).unwrap();
    assert_eq!(value, 0);
    // Wheel far downward: the offset stops at the range's end.
    s.ui.mouse.yrel = -100;
    s.scrollbar(rect, 80, &mut value, pix_engine::gui::Direction::Vertical).unwrap();
    assert_eq!(value, 80);
}

#[test]
fn select_list_click_picks_the_row_under_the_pointer() {
    let mut s = PixState::new(640, 480);
    let items: Vec<String> = (0..10).map(|i| format!("item {}", i)).collect();
    let rect = Rect::new(0, 0, 200, 108);
    let line = 20 + 2 * 8;
    let mut selected: Option<usize> = None;

    // Press inside the third row (rows are 36 pixels tall).
    s.on_event(&PixEvent::MouseMotion(50, 2 * line + 5), 0);
    s.on_event(&PixEvent::MousePress(Mouse::Left, 50, 2 * line + 5, true), 0);
    s.select_list(rect, "list", &items, 20, &mut selected).unwrap();
    s.end_frame();
    // The captured list selects the row on the next frame.
    s.select_list(rect, "list", &items, 20, &mut selected).unwrap();
    assert_eq!(selected, Some(2));
}
