use tlist::badge::{
    badge_background, badge_font_height, badge_mask, badge_overlay, badge_text,
    finish_badge_pixels, is_inside_circle, mask_stride,
};

#[test]
fn badge_text_caps_at_99() {
    assert_eq!(badge_text(1), "1");
    assert_eq!(badge_text(42), "42");
    assert_eq!(badge_text(99), "99");
    assert_eq!(badge_text(100), "99+");
    assert_eq!(badge_text(u32::MAX), "99+");
}

#[test]
fn font_height_by_length() {
    assert_eq!(badge_font_height("7"), -24);
    assert_eq!(badge_font_height("12"), -18);
    assert_eq!(badge_font_height("99+"), -14);
}

#[test]
fn overlay_cleared_for_zero() {
    assert!(badge_overlay(0).is_none());
    let o = badge_overlay(5).unwrap();
    assert_eq!(o.text, "5");
    assert_eq!(o.text_utf16, vec![0x35u16]);
    assert_eq!(o.font_height, -24);
    let o = badge_overlay(250).unwrap();
    assert_eq!(o.text, "99+");
    assert_eq!(o.text_utf16, vec![0x39u16, 0x39, 0x2b]);
    assert_eq!(o.font_height, -14);
}

fn float_inside(x: i32, y: i32) -> bool {
    let r = 32f32 / 2.0;
    let dx = x as f32 - r + 0.5;
    let dy = y as f32 - r + 0.5;
    dx * dx + dy * dy <= r * r
}

#[test]
fn circle_matches_float_test() {
    for y in 0..32 {
        for x in 0..32 {
            assert_eq!(is_inside_circle(x, y), float_inside(x, y), "{x},{y}");
        }
    }
    assert!(is_inside_circle(16, 16));
    assert!(!is_inside_circle(0, 0));
    assert!(is_inside_circle(0, 15));
}

#[test]
fn background_is_red_disc() {
    let v = badge_background();
    assert_eq!(v.len(), 1024);
    assert_eq!(v[16 * 32 + 16], 0xFFFF_0000);
    assert_eq!(v[0], 0);
    assert_eq!(v[31 * 32 + 31], 0);
    let inside = v.iter().filter(|&&p| p == 0xFFFF_0000).count();
    assert_eq!(inside + v.iter().filter(|&&p| p == 0).count(), 1024);
}

#[test]
fn finishing_forces_alpha_and_clears_outside() {
    let mut v = badge_background();
    v[16 * 32 + 16] = 0x00FF_FFFF; // white text with alpha 0
    v[0] = 0x00FF_FFFF; // text spilled outside the disc
    finish_badge_pixels(&mut v);
    assert_eq!(v[16 * 32 + 16], 0xFFFF_FFFF);
    assert_eq!(v[0], 0);
    assert_eq!(v[16 * 32 + 15], 0xFFFF_0000);
}

#[test]
fn mask_is_128_zero_bytes() {
    assert_eq!(mask_stride(32), 4);
    assert_eq!(mask_stride(33), 8);
    assert_eq!(mask_stride(0), 0);
    let m = badge_mask();
    assert_eq!(m.len(), 128);
    assert!(m.iter().all(|&b| b == 0));
}
