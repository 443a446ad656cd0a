use menu_driver::font::glyph;
use menu_driver::framebuffer::{draw_char, draw_text, fill_rect};
use menu_driver::screen::{clear_box, draw_blue_box_with_text, draw_box, BOX_COLOR, CLEARED_COLOR, TEXT_COLOR};
use menu_driver::usb::UsbState;

const BG: u32 = 0x1234_5678;

fn set_pixels(fb: &[u32], stride: usize, color: u32) -> Vec<(usize, usize)> {
    let mut v = Vec::new();
    for (i, p) in fb.iter().enumerate() {
        if *p == color {
            v.push((i % stride, i / stride));
        }
    }
    v
}

#[test]
fn glyph_table() {
    assert_eq!(glyph('A'), Some([0x18, 0x24, 0x42, 0x7E, 0x42, 0x42, 0x42, 0x00]));
    assert_eq!(glyph('9'), Some([0x3C, 0x66, 0x66, 0x3E, 0x06, 0x0C, 0x38, 0x00]));
    assert_eq!(glyph('\\'), Some([0x40, 0x20, 0x10, 0x08, 0x04, 0x02, 0x01, 0x00]));
    assert_eq!(glyph(' '), Some([0; 8]));
    assert_eq!(glyph('?'), None);
    assert_eq!(glyph('\n'), None);
    assert_eq!(glyph('é'), None);
}

#[test]
fn draw_char_sets_glyph_bits() {
    let mut fb = vec![BG; 32 * 16];
    draw_char(&mut fb, 32, 2, 1, 7, 'I');
    // 'I' = 3C 18 18 18 18 18 3C 00
    let mut expected = Vec::new();
    for (row, bits) in [0x3Cu8, 0x18, 0x18, 0x18, 0x18, 0x18, 0x3C, 0x00].iter().enumerate() {
        for col in 0..8 {
            if (bits >> (7 - col)) & 1 == 1 {
                expected.push((2 + col, 1 + row));
            }
        }
    }
    expected.sort_by_key(|&(x, y)| (y, x));
    assert_eq!(set_pixels(&fb, 32, 7), expected);
    assert_eq!(fb.iter().filter(|&&p| p == BG).count(), 32 * 16 - expected.len());
}

#[test]
fn draw_char_unknown_and_space_draw_nothing() {
    let mut fb = vec![BG; 64];
    draw_char(&mut fb, 8, 0, 0, 1, '?');
    draw_char(&mut fb, 8, 0, 0, 1, ' ');
    assert!(fb.iter().all(|&p| p == BG));
}

#[test]
fn draw_char_skips_pixels_past_the_end() {
    // only three lines of 8 pixels: rows 3..7 of the glyph fall outside
    let mut fb = vec![BG; 24];
    draw_char(&mut fb, 8, 0, 0, 9, 'T');
    // 'T' = 7E 18 18 ...
    assert_eq!(set_pixels(&fb, 8, 9), vec![(1, 0), (2, 0), (3, 0), (4, 0), (5, 0), (6, 0), (3, 1), (4, 1), (3, 2), (4, 2)]);
    let mut fb = vec![BG; 4];
    draw_char(&mut fb, 8, usize::MAX - 3, usize::MAX, 9, 'A');
    assert!(fb.iter().all(|&p| p == BG));
}

#[test]
fn draw_text_moves_cursor() {
    let stride = 40;
    let mut fb = vec![BG; stride * 40];
    draw_text(&mut fb, stride as u32, 3, 2, 5, "II\nI");
    let mut expected = vec![BG; stride * 40];
    draw_char(&mut expected, stride as u32, 3, 2, 5, 'I');
    draw_char(&mut expected, stride as u32, 13, 2, 5, 'I');
    draw_char(&mut expected, stride as u32, 3, 14, 5, 'I');
    assert_eq!(fb, expected);
}

#[test]
fn draw_text_skips_unknown_characters_but_advances() {
    let stride = 40;
    let mut fb = vec![BG; stride * 20];
    draw_text(&mut fb, stride as u32, 0, 0, 5, "?I");
    let mut expected = vec![BG; stride * 20];
    draw_char(&mut expected, stride as u32, 10, 0, 5, 'I');
    assert_eq!(fb, expected);
}

#[test]
fn fill_rect_exact() {
    let mut fb = vec![BG; 10 * 10];
    fill_rect(&mut fb, 10, 2, 5, 7, 9, 3);
    let mut expected = Vec::new();
    for y in 7..9 {
        for x in 2..5 {
            expected.push((x, y));
        }
    }
    assert_eq!(set_pixels(&fb, 10, 3), expected);
    let mut fb2 = vec![BG; 100];
    fill_rect(&mut fb2, 10, 5, 2, 0, 10, 3);
    assert!(fb2.iter().all(|&p| p == BG));
}

#[test]
fn box_drawn_then_cleared() {
    let ppsl = 640usize;
    let mut fb = vec![BG; ppsl * 260];
    let st = UsbState::new();
    draw_box(&mut fb, ppsl as u32, &st);
    // a box corner and an inner pixel away from the text
    assert_eq!(fb[100 * ppsl + 100], BOX_COLOR);
    assert_eq!(fb[249 * ppsl + 599], BOX_COLOR);
    assert_eq!(fb[99 * ppsl + 100], BG);
    assert_eq!(fb[100 * ppsl + 600], BG);
    // the text "Waiting for USB..." starts with 'W' at (120,120): 'W' row 0 = 0x42
    assert_eq!(fb[120 * ppsl + 121], TEXT_COLOR);
    assert_eq!(fb[120 * ppsl + 120], BOX_COLOR);
    let mut text_only = vec![0u32; ppsl * 260];
    draw_text(&mut text_only, ppsl as u32, 120, 120, 1, "Waiting for USB...");
    for i in 0..fb.len() {
        let (x, y) = (i % ppsl, i / ppsl);
        let in_box = (100..600).contains(&x) && (100..250).contains(&y);
        let want = if text_only[i] == 1 { TEXT_COLOR } else if in_box { BOX_COLOR } else { BG };
        assert_eq!(fb[i], want, "pixel {},{}", x, y);
    }
    clear_box(&mut fb, ppsl as u32);
    for i in 0..fb.len() {
        let (x, y) = (i % ppsl, i / ppsl);
        let in_box = (100..600).contains(&x) && (100..250).contains(&y);
        assert_eq!(fb[i], if in_box { CLEARED_COLOR } else { BG });
    }
}

#[test]
fn centred_box() {
    let (w, h) = (410usize, 204usize);
    let mut fb = vec![BG; w * h];
    assert!(draw_blue_box_with_text(&mut fb, w as u32, h as u32).is_ok());
    for i in 0..fb.len() {
        let (x, y) = (i % w, i / w);
        let inside = (5..405).contains(&x) && (2..202).contains(&y);
        assert_eq!(fb[i], if inside { BOX_COLOR } else { BG });
    }
}

#[test]
fn text_split_at_newline_draws_rest_lower() {
    let stride = 64;
    let mut whole = vec![BG; stride * 48];
    draw_text(&mut whole, stride as u32, 4, 3, 6, "AB:\nz9.");
    let mut parts = vec![BG; stride * 48];
    draw_text(&mut parts, stride as u32, 4, 3, 6, "AB:");
    draw_text(&mut parts, stride as u32, 4, 15, 6, "z9.");
    assert_eq!(whole, parts);
}
