use termart::bitmap::Bitmap;
use termart::error::RenderError;
use termart::palette::Rgb;
use termart::render::{draw_frame, plain_text, render_frame, DrawOp, RenderConfig};
use termart::resize::TerminalGeometry;

fn config(colorize: bool, resize: bool, block_character: bool) -> RenderConfig {
    RenderConfig { colorize, resize, block_character, frame_delay_ms: 200, loop_animation: false }
}

fn solid(width: u32, height: u32, level: u8) -> Bitmap {
    Bitmap::new(width, height, vec![level; (3 * width * height) as usize]).unwrap()
}

fn plain(index: u8) -> DrawOp {
    DrawOp::Glyph { index, color: None }
}

#[test]
fn white_row_prints_three_solid_glyphs() {
    let ops = draw_frame(&solid(3, 1, 255), &config(false, false, false));
    assert_eq!(plain_text(&ops), "█████████\n");
    let one = draw_frame(&solid(1, 1, 255), &config(false, false, false));
    assert_eq!(plain_text(&one), "███\n");
}

#[test]
fn black_row_prints_three_blank_glyphs() {
    let ops = draw_frame(&solid(3, 1, 0), &config(false, false, false));
    assert_eq!(plain_text(&ops), "         \n");
    let one = draw_frame(&solid(1, 1, 0), &config(false, false, false));
    assert_eq!(plain_text(&one), "   \n");
}

#[test]
fn frame_starts_at_home_and_flushes_once_at_the_end() {
    let ops = draw_frame(&solid(2, 2, 255), &config(false, false, false));
    assert_eq!(
        ops,
        vec![
            DrawOp::MoveHome,
            plain(15),
            plain(15),
            DrawOp::Newline,
            plain(15),
            plain(15),
            DrawOp::Newline,
            DrawOp::Flush,
        ]
    );
    assert_eq!(ops.iter().filter(|op| **op == DrawOp::Flush).count(), 1);
    assert_eq!(ops.iter().filter(|op| **op == DrawOp::MoveHome).count(), 1);
}

#[test]
fn frame_follows_the_pixels_row_by_row() {
    let data = vec![0, 0, 0, 16, 16, 16, 128, 128, 128, 255, 255, 255, 100, 100, 100, 47, 48, 49];
    let bitmap = Bitmap::new(3, 2, data).unwrap();
    let ops = draw_frame(&bitmap, &config(false, false, false));
    assert_eq!(
        ops,
        vec![
            DrawOp::MoveHome,
            plain(0),
            plain(1),
            plain(8),
            DrawOp::Newline,
            plain(15),
            plain(6),
            plain(3),
            DrawOp::Newline,
            DrawOp::Flush,
        ]
    );
    assert_eq!(plain_text(&ops), "   ...!!!\n███iii:::\n");
}

#[test]
fn colorized_frame_carries_each_pixel_colour() {
    let bitmap = Bitmap::new(2, 1, vec![255, 0, 0, 0, 0, 40]).unwrap();
    let ops = draw_frame(&bitmap, &config(true, false, false));
    assert_eq!(
        ops,
        vec![
            DrawOp::MoveHome,
            DrawOp::Glyph { index: 5, color: Some(Rgb { r: 255, g: 0, b: 0 }) },
            DrawOp::Glyph { index: 0, color: Some(Rgb { r: 0, g: 0, b: 40 }) },
            DrawOp::Newline,
            DrawOp::Flush,
        ]
    );
}

#[test]
fn block_mode_prints_solid_glyphs_in_the_pixel_colours() {
    let bitmap = Bitmap::new(2, 1, vec![255, 0, 0, 0, 0, 40]).unwrap();
    let colored = draw_frame(&bitmap, &config(true, false, true));
    assert_eq!(
        colored,
        vec![
            DrawOp::MoveHome,
            DrawOp::Glyph { index: 15, color: Some(Rgb { r: 255, g: 0, b: 0 }) },
            DrawOp::Glyph { index: 15, color: Some(Rgb { r: 0, g: 0, b: 40 }) },
            DrawOp::Newline,
            DrawOp::Flush,
        ]
    );
    let plain_ops = draw_frame(&bitmap, &config(false, false, true));
    assert_eq!(plain_text(&plain_ops), "██████\n");
}

#[test]
fn empty_bitmaps_draw_no_glyph() {
    let none = draw_frame(&Bitmap::new(0, 0, Vec::new()).unwrap(), &config(false, false, false));
    assert_eq!(none, vec![DrawOp::MoveHome, DrawOp::Flush]);
    let rows = draw_frame(&Bitmap::new(0, 2, Vec::new()).unwrap(), &config(false, false, false));
    assert_eq!(rows, vec![DrawOp::MoveHome, DrawOp::Newline, DrawOp::Newline, DrawOp::Flush]);
    assert_eq!(plain_text(&rows), "\n\n");
}

#[test]
fn render_frame_without_resize_ignores_the_terminal() {
    let tiny = TerminalGeometry { columns: 0, rows: 0 };
    let ops = render_frame(solid(3, 1, 255), &config(false, false, false), tiny).unwrap();
    assert_eq!(plain_text(&ops), "█████████\n");
}

#[test]
fn render_frame_with_resize_fits_the_terminal() {
    let terminal = TerminalGeometry { columns: 9, rows: 5 };
    let ops = render_frame(solid(10, 10, 255), &config(false, true, false), terminal).unwrap();
    assert_eq!(plain_text(&ops), "██████\n██████\n");
}

#[test]
fn render_frame_with_resize_fails_on_small_terminals() {
    let narrow = TerminalGeometry { columns: 2, rows: 40 };
    let low = TerminalGeometry { columns: 80, rows: 3 };
    assert_eq!(
        render_frame(solid(10, 10, 255), &config(false, true, false), narrow),
        Err(RenderError::TerminalTooSmall)
    );
    assert_eq!(
        render_frame(solid(10, 10, 255), &config(true, true, true), low),
        Err(RenderError::TerminalTooSmall)
    );
}

#[test]
fn error_messages() {
    assert_eq!(RenderError::TerminalTooSmall.message(), "I don't like zero sized terminals");
    assert_eq!(RenderError::Io.message(), "Writing to the terminal failed");
    assert_eq!(RenderError::FrameSource.message(), "The frame source failed to produce a frame");
}
