//! The software rasterizer: pixel writes, fills, primitives and text.

use pix_engine::draw::StateData;
use pix_engine::pixel::{AlphaMode, Pixel};
use pix_engine::sprite::Sprite;

fn target_pixel(s: &mut StateData, x: i32, y: i32) -> Pixel {
    s.get_draw_target().get_pixel(x, y)
}

#[test]
fn sprite_set_and_get() {
    let mut sp = Sprite::with_size(4, 3);
    assert_eq!(sp.width(), 4);
    assert_eq!(sp.height(), 3);
    assert!(sp.set_pixel(2, 1, Pixel::rgb(9, 8, 7)));
    assert!(!sp.set_pixel(4, 0, Pixel::rgb(1, 1, 1)));
    assert_eq!(sp.get_pixel(2, 1), Pixel::rgb(9, 8, 7));
    assert_eq!(sp.get_pixel(0, 0), Pixel::default());
    assert_eq!(sp.get_pixel(-1, 0), Pixel::default());
}

#[test]
fn fill_and_clear_cover_everything() {
    let mut s = StateData::new(8, 8);
    s.fill(Pixel::rgb(1, 2, 3));
    for x in 0..8 {
        for y in 0..8 {
            assert_eq!(target_pixel(&mut s, x, y), Pixel::rgb(1, 2, 3));
        }
    }
    s.clear(Pixel::rgb(4, 5, 6));
    assert_eq!(target_pixel(&mut s, 7, 7), Pixel::rgb(4, 5, 6));
}

#[test]
fn fill_rect_paints_exactly_its_box() {
    let mut s = StateData::new(16, 16);
    s.set_draw_color(Pixel::rgb(200, 0, 0));
    s.fill_rect(2, 3, 4, 5);
    for x in 0..16 {
        for y in 0..16 {
            let inside = x >= 2 && x < 6 && y >= 3 && y < 8;
            let expect = if inside { Pixel::rgb(200, 0, 0) } else { Pixel::default() };
            assert_eq!(target_pixel(&mut s, x, y), expect);
        }
    }
}

#[test]
fn lines_follow_their_axes() {
    let mut s = StateData::new(16, 16);
    s.set_draw_color(Pixel::rgb(0, 200, 0));
    s.draw_line(1, 4, 9, 4);
    for x in 1..=9 {
        assert_eq!(target_pixel(&mut s, x, 4), Pixel::rgb(0, 200, 0));
    }
    assert_eq!(target_pixel(&mut s, 0, 4), Pixel::default());
    assert_eq!(target_pixel(&mut s, 10, 4), Pixel::default());

    s.set_draw_color(Pixel::rgb(0, 0, 200));
    s.draw_line(12, 2, 12, 7);
    for y in 2..=7 {
        assert_eq!(target_pixel(&mut s, 12, y), Pixel::rgb(0, 0, 200));
    }
}

#[test]
fn diagonal_line_connects_endpoints() {
    let mut s = StateData::new(16, 16);
    s.set_draw_color(Pixel::rgb(9, 9, 9));
    s.draw_line(0, 0, 5, 5);
    assert_eq!(target_pixel(&mut s, 0, 0), Pixel::rgb(9, 9, 9));
    assert_eq!(target_pixel(&mut s, 5, 5), Pixel::rgb(9, 9, 9));
    assert_eq!(target_pixel(&mut s, 3, 3), Pixel::rgb(9, 9, 9));
    assert_eq!(target_pixel(&mut s, 9, 9), Pixel::default());
}

#[test]
fn rect_outline_stays_on_its_border() {
    let mut s = StateData::new(16, 16);
    s.set_draw_color(Pixel::rgb(7, 7, 7));
    s.draw_rect(2, 2, 5, 4);
    assert_eq!(target_pixel(&mut s, 2, 2), Pixel::rgb(7, 7, 7));
    assert_eq!(target_pixel(&mut s, 7, 6), Pixel::rgb(7, 7, 7));
    assert_eq!(target_pixel(&mut s, 4, 2), Pixel::rgb(7, 7, 7));
    assert_eq!(target_pixel(&mut s, 4, 4), Pixel::default());
}

#[test]
fn circle_stays_in_its_box_and_marks_extremes() {
    let mut s = StateData::new(32, 32);
    s.set_draw_color(Pixel::rgb(5, 5, 5));
    s.draw_circle(10, 10, 4);
    assert_eq!(target_pixel(&mut s, 10, 6), Pixel::rgb(5, 5, 5));
    assert_eq!(target_pixel(&mut s, 10, 14), Pixel::rgb(5, 5, 5));
    assert_eq!(target_pixel(&mut s, 6, 10), Pixel::rgb(5, 5, 5));
    assert_eq!(target_pixel(&mut s, 14, 10), Pixel::rgb(5, 5, 5));
    assert_eq!(target_pixel(&mut s, 10, 10), Pixel::default());
    for x in 0..32 {
        for y in 0..32 {
            if (x - 10i32).abs() > 4 || (y - 10i32).abs() > 4 {
                assert_eq!(target_pixel(&mut s, x, y), Pixel::default());
            }
        }
    }
    s.fill_circle(20, 20, 3);
    assert_eq!(target_pixel(&mut s, 20, 20), Pixel::rgb(5, 5, 5));
}

#[test]
fn filled_triangle_stays_between_its_rows() {
    let mut s = StateData::new(32, 32);
    s.set_draw_color(Pixel::rgb(3, 3, 3));
    s.fill_triangle(5, 5, 15, 6, 10, 12);
    for x in 0..32 {
        assert_eq!(target_pixel(&mut s, x, 4), Pixel::default());
        assert_eq!(target_pixel(&mut s, x, 13), Pixel::default());
    }
    assert_eq!(target_pixel(&mut s, 10, 8), Pixel::rgb(3, 3, 3));
}

#[test]
fn masked_writes_skip_translucent_colors() {
    let mut s = StateData::new(8, 8);
    s.set_alpha_mode(AlphaMode::Mask);
    assert!(!s.draw_color(1, 1, Pixel::rgba(9, 9, 9, 128)));
    assert_eq!(target_pixel(&mut s, 1, 1), Pixel::default());
    assert!(s.draw_color(1, 1, Pixel::rgba(9, 9, 9, 255)));
    assert_eq!(target_pixel(&mut s, 1, 1), Pixel::rgba(9, 9, 9, 255));
}

#[test]
fn blended_writes_mix_channels() {
    let mut s = StateData::new(8, 8);
    s.set_alpha_mode(AlphaMode::Normal);
    s.draw_color(2, 2, Pixel::rgb(0, 0, 0));
    s.set_alpha_mode(AlphaMode::Blend);
    s.draw_color(2, 2, Pixel::rgba(255, 0, 0, 128));
    let got = target_pixel(&mut s, 2, 2);
    // weight = 128 * 255 out of 255 * 255 parts of the new color
    let expect = ((128u32 * 255 * 255) / (255 * 255)) as u8;
    assert_eq!(got.r, expect);
    assert_eq!(got.g, 0);
    assert_eq!(got.a, 255);
}

#[test]
fn font_decodes_and_text_draws() {
    let font = StateData::construct_font();
    assert_eq!(font.width, 128);
    assert_eq!(font.height, 48);

    let mut s = StateData::new(64, 64);
    s.set_draw_color(Pixel::rgb(255, 255, 255));
    s.draw_string(0, 0, String::from("A"));
    let mut lit = 0;
    for x in 0..8 {
        for y in 0..8 {
            if target_pixel(&mut s, x, y).r == 255 {
                lit += 1;
            }
        }
    }
    assert!(lit > 0);
}

#[test]
fn sprites_copy_pixels() {
    let mut stamp = Sprite::with_size(2, 2);
    stamp.set_pixel(0, 0, Pixel::rgba(1, 0, 0, 255));
    stamp.set_pixel(1, 1, Pixel::rgba(0, 1, 0, 255));
    let mut s = StateData::new(16, 16);
    s.draw_sprite(4, 4, &stamp);
    assert_eq!(target_pixel(&mut s, 4, 4), Pixel::rgba(1, 0, 0, 255));
    assert_eq!(target_pixel(&mut s, 5, 5), Pixel::rgba(0, 1, 0, 255));
    assert_eq!(target_pixel(&mut s, 6, 6), Pixel::default());
}

#[test]
fn wrapped_coordinates_reenter_on_the_other_side() {
    let mut s = StateData::new(8, 8);
    s.enable_coord_wrapping(true);
    s.set_draw_color(Pixel::rgb(9, 0, 9));
    s.draw(-1, 3);
    assert_eq!(target_pixel(&mut s, 7, 3), Pixel::rgb(9, 0, 9));
}

#[test]
fn channel_cursor_walks_all_four() {
    let p = Pixel::rgba(10, 20, 30, 40);
    let mut it = p.iter();
    assert_eq!(it.next(), Some(10));
    assert_eq!(it.next(), Some(20));
    assert_eq!(it.next(), Some(30));
    assert_eq!(it.next(), Some(40));
    assert_eq!(it.next(), None);
}
