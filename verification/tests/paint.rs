use chip8::framebuffer::Framebuffer;
use chip8::paint::{PixelRect, PIXEL_SCALE_FACTOR};

#[test]
fn a_dark_grid_has_nothing_to_paint() {
    let fb = Framebuffer::new();
    assert_eq!(fb.paint_rects(), vec![]);
}

#[test]
fn each_lit_pixel_is_a_square_of_the_scale() {
    assert_eq!(PIXEL_SCALE_FACTOR, 8);
    let mut fb = Framebuffer::new();
    fb.set(3, 5, true);
    assert_eq!(fb.paint_rects(), vec![PixelRect { x: 24, y: 40, width: 8, height: 8 }]);
}

#[test]
fn squares_come_column_by_column() {
    let mut fb = Framebuffer::new();
    fb.set(63, 31, true);
    fb.set(1, 2, true);
    fb.set(0, 5, true);
    fb.set(1, 0, true);
    assert_eq!(
        fb.paint_rects(),
        vec![
            PixelRect { x: 0, y: 40, width: 8, height: 8 },
            PixelRect { x: 8, y: 0, width: 8, height: 8 },
            PixelRect { x: 8, y: 16, width: 8, height: 8 },
            PixelRect { x: 504, y: 248, width: 8, height: 8 },
        ]
    );
}

#[test]
fn a_full_grid_paints_every_pixel() {
    let mut fb = Framebuffer::new();
    for x in 0..64 {
        for y in 0..32 {
            fb.set(x, y, true);
        }
    }
    let rects = fb.paint_rects();
    assert_eq!(rects.len(), 2048);
    assert_eq!(rects[0], PixelRect { x: 0, y: 0, width: 8, height: 8 });
    assert_eq!(rects[32], PixelRect { x: 8, y: 0, width: 8, height: 8 });
    assert_eq!(rects[2047], PixelRect { x: 504, y: 248, width: 8, height: 8 });
}

#[test]
fn painting_does_not_take_the_dirty_flag() {
    let mut fb = Framebuffer::new();
    fb.set(0, 0, true);
    let _ = fb.paint_rects();
    assert!(fb.take_dirty());
}
