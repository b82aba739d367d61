use std::io::Cursor;

use whatsapp_linux::badge::{draw_badge, glyph, render, BadgeError};

/// A 128 by 128 green PNG with a darker diagonal band.
fn base_icon() -> Vec<u8> {
    let img = image::RgbaImage::from_fn(128, 128, |x, y| {
        if (x + y) % 16 < 4 {
            image::Rgba([0, 90, 40, 255])
        } else {
            image::Rgba([37, 211, 102, 255])
        }
    });
    let mut bytes = Vec::new();
    img.write_to(&mut Cursor::new(&mut bytes), image::ImageFormat::Png)
        .expect("PNG encoding");
    bytes
}

fn pixel(rgba: &[u8], x: usize, y: usize) -> [u8; 4] {
    let o = (y * 64 + x) * 4;
    [rgba[o], rgba[o + 1], rgba[o + 2], rgba[o + 3]]
}

#[test]
fn base_icon_and_badges_have_stable_dimensions() {
    let base = base_icon();
    for count in [0, 1, 99, 100, u32::MAX] {
        let icon = render(&base, count).unwrap();
        assert_eq!((icon.width, icon.height), (64, 64));
        assert_eq!(icon.rgba.len(), 64 * 64 * 4);
    }
}

#[test]
fn zero_resets_to_base_icon() {
    let base = base_icon();
    assert_eq!(render(&base, 0).unwrap(), render(&base, 0).unwrap());
    assert_ne!(render(&base, 0).unwrap(), render(&base, 1).unwrap());
}

#[test]
fn excessive_counts_are_bounded_to_same_badge() {
    let base = base_icon();
    assert_eq!(render(&base, 100).unwrap(), render(&base, u32::MAX).unwrap());
}

#[test]
fn badge_center_is_deterministic_red() {
    let icon = render(&base_icon(), 3).unwrap();
    let offset = ((16 * icon.width + 34) * 4) as usize;
    assert_eq!(&icon.rgba[offset..offset + 4], &[220, 38, 38, 255]);
}

#[test]
fn undecodable_icons_are_refused() {
    assert_eq!(render(b"not an image", 1), Err(BadgeError::InvalidIcon));
    assert_eq!(render(&[], 0), Err(BadgeError::InvalidIcon));
}

#[test]
fn badge_changes_only_its_disc() {
    let base = render(&base_icon(), 0).unwrap();
    for count in [1u32, 7, 42, 99, 100, 5000] {
        let badged = render(&base_icon(), count).unwrap();
        for y in 0..64 {
            for x in 0..64 {
                let dx = x as i32 - 48;
                let dy = y as i32 - 16;
                if dx * dx + dy * dy > 256 {
                    assert_eq!(pixel(&badged.rgba, x, y), pixel(&base.rgba, x, y));
                }
            }
        }
    }
}

#[test]
fn label_pixels_are_white() {
    // "1" centred on (48, 16): one glyph 6 pixels wide starting at column 45, row 11.
    let mut canvas = vec![0u8; 64 * 64 * 4];
    draw_badge(&mut canvas, 1);
    // Top row of "1" is 0b010: only the middle cell, columns 47 and 48.
    assert_eq!(pixel(&canvas, 47, 11), [255, 255, 255, 255]);
    assert_eq!(pixel(&canvas, 48, 12), [255, 255, 255, 255]);
    assert_eq!(pixel(&canvas, 45, 11), [220, 38, 38, 255]);
    // Bottom row of "1" is 0b111: columns 45 to 50, rows 19 and 20.
    assert_eq!(pixel(&canvas, 45, 20), [255, 255, 255, 255]);
    assert_eq!(pixel(&canvas, 50, 19), [255, 255, 255, 255]);
    // Outside the disc nothing is painted.
    assert_eq!(pixel(&canvas, 0, 0), [0, 0, 0, 0]);
    assert_eq!(pixel(&canvas, 63, 63), [0, 0, 0, 0]);
    // The disc reaches radius 16.
    assert_eq!(pixel(&canvas, 32, 16), [220, 38, 38, 255]);
    assert_eq!(pixel(&canvas, 31, 16), [0, 0, 0, 0]);
}

#[test]
fn glyphs() {
    assert_eq!(glyph('0'), [0b111, 0b101, 0b101, 0b101, 0b111]);
    assert_eq!(glyph('+'), [0b000, 0b010, 0b111, 0b010, 0b000]);
    assert_eq!(glyph('x'), [0; 5]);
}
