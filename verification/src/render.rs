//! Turning one bitmap into the commands that draw it on a terminal.
//!
//! A frame is drawn from the top left corner without clearing the screen:
//! one glyph per pixel, row by row, a line break after each row, and a
//! single flush at the end.

use vstd::prelude::*;
use vstd::string::StringExecFns;
use crate::bitmap::{pixel_in, Bitmap};
use crate::error::RenderError;
use crate::palette::{
    glyph_chars, glyph_choice, glyph_for, glyph_text, Rgb, PALETTE_LEN, SOLID_GLYPH,
};
use crate::resize::{
    can_scale, canvas_is_empty, nearest_resized, resize_img, target_height, target_width,
    TerminalGeometry,
};

verus! {

/// The options of one run.
#[derive(Clone, Copy, Debug, PartialEq, Eq, Structural)]
pub struct RenderConfig {
    /// Print each glyph in the colour of its pixel.
    pub colorize: bool,
    /// Scale each frame to the terminal before drawing it.
    pub resize: bool,
    /// Draw every pixel as the solid block.
    pub block_character: bool,
    /// Pause between two frames, in milliseconds.
    pub frame_delay_ms: u64,
    /// Repeat the animation without end.
    pub loop_animation: bool,
}

/// One command to the terminal.
#[derive(Clone, Copy, Debug, PartialEq, Eq, Structural)]
pub enum DrawOp {
    /// Move the cursor to the top left corner.
    MoveHome,
    /// Print the glyph at `index` of the palette, in `color` if there is
    /// one and in the terminal's own colour if not.
    Glyph { index: u8, color: Option<Rgb> },
    /// End the row.
    Newline,
    /// Send everything printed so far to the terminal.
    Flush,
}

/// The command that draws one pixel.
pub open spec fn cell_op(pixel: Rgb, config: RenderConfig) -> DrawOp {
    DrawOp::Glyph {
        index: glyph_choice(pixel, config.block_character) as u8,
        color: if config.colorize {
            Some(pixel)
        } else {
            None
        },
    }
}

/// The commands for the first `count` pixels of row `y`.
pub open spec fn row_cells(data: Seq<u8>, width: int, y: int, count: int, config: RenderConfig) -> Seq<
    DrawOp,
> {
    Seq::new(count as nat, |x: int| cell_op(pixel_in(data, width, x, y), config))
}

/// The commands for row `y`: its pixels from left to right, then the line
/// break.
pub open spec fn row_ops(data: Seq<u8>, width: int, y: int, config: RenderConfig) -> Seq<DrawOp> {
    row_cells(data, width, y, width, config).push(DrawOp::Newline)
}

/// The commands for the first `rows` rows, top row first.
pub open spec fn body_ops(data: Seq<u8>, width: int, rows: int, config: RenderConfig) -> Seq<DrawOp>
    decreases rows,
{
    if rows <= 0 {
        Seq::empty()
    } else {
        body_ops(data, width, rows - 1, config) + row_ops(data, width, rows - 1, config)
    }
}

/// The commands for a whole frame: the cursor goes home, the rows follow,
/// and the frame is flushed once.
pub open spec fn frame_ops(data: Seq<u8>, width: int, height: int, config: RenderConfig) -> Seq<
    DrawOp,
> {
    seq![DrawOp::MoveHome] + body_ops(data, width, height, config) + seq![DrawOp::Flush]
}

/// Every glyph named by the commands is in the palette.
pub open spec fn ops_in_palette(ops: Seq<DrawOp>) -> bool {
    forall|i: int|
        0 <= i < ops.len() ==> (#[trigger] ops[i] matches DrawOp::Glyph { index, .. } ==> index
            < PALETTE_LEN)
}

/// The characters that one command prints.
pub open spec fn op_text(op: DrawOp) -> Seq<char> {
    match op {
        DrawOp::Glyph { index, .. } => glyph_chars(index as int),
        DrawOp::Newline => seq!['\n'],
        DrawOp::MoveHome => Seq::empty(),
        DrawOp::Flush => Seq::empty(),
    }
}

/// The characters that the first `count` commands print, in order.
pub open spec fn ops_text(ops: Seq<DrawOp>, count: int) -> Seq<char>
    decreases count,
{
    if count <= 0 {
        Seq::empty()
    } else {
        ops_text(ops, count - 1) + op_text(ops[count - 1])
    }
}

/// Draws a bitmap as it is.
///
/// The commands are exactly those of [`frame_ops`]: the cursor goes home,
/// each pixel gets its glyph (coloured with the pixel's own colour when
/// `colorize` is set), each row ends with a line break, and the last
/// command is the one flush.
pub fn draw_frame(img: &Bitmap, config: &RenderConfig) -> (ops: Vec<DrawOp>)
    requires
        img.well_formed(),
    ensures
        ops@ == frame_ops(img.bytes(), img.spec_width(), img.spec_height(), *config),
        ops_in_palette(ops@),
{
    let width = img.width();
    let height = img.height();
    let mut ops: Vec<DrawOp> = Vec::new();
    ops.push(DrawOp::MoveHome);
    let mut y: u32 = 0;
    while y < height
        invariant
            img.well_formed(),
            width == img.spec_width(),
            height == img.spec_height(),
            y <= height,
            ops@ == seq![DrawOp::MoveHome] + body_ops(img.bytes(), width as int, y as int, *config),
            ops_in_palette(ops@),
        decreases height - y,
    {
        let ghost before = ops@;
        let mut x: u32 = 0;
        while x < width
            invariant
                img.well_formed(),
                width == img.spec_width(),
                height == img.spec_height(),
                y < height,
                x <= width,
                ops@ == before + row_cells(img.bytes(), width as int, y as int, x as int, *config),
                ops_in_palette(ops@),
            decreases width - x,
        {
            let pixel = img.pixel(x, y);
            let (index, shade) = glyph_for(pixel, config.block_character);
            let color = if config.colorize {
                Some(shade)
            } else {
                None
            };
            ops.push(DrawOp::Glyph { index, color });
            proof {
                let so_far = row_cells(img.bytes(), width as int, y as int, x as int, *config);
                let next = row_cells(img.bytes(), width as int, y as int, x as int + 1, *config);
                assert(next =~= so_far.push(cell_op(pixel, *config)));
                assert(ops@ =~= before + next);
            }
            x = x + 1;
        }
        ops.push(DrawOp::Newline);
        proof {
            assert(ops@ =~= before + row_ops(img.bytes(), width as int, y as int, *config));
            assert(ops@ =~= seq![DrawOp::MoveHome] + body_ops(
                img.bytes(),
                width as int,
                y as int + 1,
                *config,
            ));
        }
        y = y + 1;
    }
    ops.push(DrawOp::Flush);
    ops
}

/// Draws a bitmap, scaled to the terminal first where the options ask for
/// it.
///
/// Fails with `TerminalTooSmall` exactly when scaling is asked for and the
/// terminal has fewer than three columns or no more than three rows. With
/// scaling the commands are those of [`frame_ops`] for the resampled
/// bitmap, without it those for `img` itself.
pub fn render_frame(img: Bitmap, config: &RenderConfig, geometry: TerminalGeometry) -> (drawn: Result<
    Vec<DrawOp>,
    RenderError,
>)
    requires
        img.well_formed(),
        config.resize ==> can_scale(img.spec_width(), img.spec_height(), geometry),
    ensures
        drawn is Err <==> config.resize && canvas_is_empty(geometry),
        drawn matches Err(e) ==> e == RenderError::TerminalTooSmall,
        drawn matches Ok(ops) ==> {
            &&& ops_in_palette(ops@)
            &&& !config.resize ==> ops@ == frame_ops(
                img.bytes(),
                img.spec_width(),
                img.spec_height(),
                *config,
            )
            &&& config.resize ==> {
                let scaled = nearest_resized(
                    img.spec_width() as u32,
                    img.spec_height() as u32,
                    img.bytes(),
                    target_width(img.spec_width(), img.spec_height(), geometry) as u32,
                    target_height(img.spec_width(), img.spec_height(), geometry) as u32,
                );
                ops@ == frame_ops(scaled.2, scaled.0 as int, scaled.1 as int, *config)
            }
        },
{
    if config.resize {
        match resize_img(img, geometry) {
            Err(e) => Err(e),
            Ok(scaled) => Ok(draw_frame(&scaled, config)),
        }
    } else {
        Ok(draw_frame(&img, config))
    }
}

/// The text that the commands print when no colour is used: the glyphs and
/// line breaks in order.
pub fn plain_text(ops: &Vec<DrawOp>) -> (text: String)
    requires
        ops_in_palette(ops@),
    ensures
        text@ == ops_text(ops@, ops@.len() as int),
{
    let mut text = String::new();
    let mut i: usize = 0;
    while i < ops.len()
        invariant
            i <= ops.len(),
            ops_in_palette(ops@),
            text@ == ops_text(ops@, i as int),
        decreases ops.len() - i,
    {
        match ops[i] {
            DrawOp::Glyph { index, .. } => {
                text.append(glyph_text(index));
            },
            DrawOp::Newline => {
                proof {
                    reveal_strlit("\n");
                }
                assert("\n"@ =~= seq!['\n']);
                text.append("\n");
            },
            DrawOp::MoveHome => {},
            DrawOp::Flush => {},
        }
        assert(text@ =~= ops_text(ops@, i as int) + op_text(ops@[i as int]));
        i = i + 1;
    }
    text
}

/// The rows drawn so far take one command per pixel and one per line
/// break.
pub proof fn lemma_body_len(data: Seq<u8>, width: int, rows: int, config: RenderConfig)
    requires
        width >= 0,
        rows >= 0,
    ensures
        body_ops(data, width, rows, config).len() == rows * (width + 1),
    decreases rows,
{
    if rows > 0 {
        lemma_body_len(data, width, rows - 1, config);
        assert((rows - 1) * (width + 1) + (width + 1) == rows * (width + 1)) by (nonlinear_arith);
    } else {
        assert(rows * (width + 1) == 0) by (nonlinear_arith)
            requires
                rows == 0,
        ;
    }
}

/// Where each command of a frame stands: the cursor goes home first, the
/// glyph of the pixel at column `x` of row `y` is command
/// `1 + y * (width + 1) + x`, the row's line break follows its last glyph,
/// and the flush is the last command.
pub proof fn lemma_frame_layout(
    data: Seq<u8>,
    width: int,
    height: int,
    config: RenderConfig,
    x: int,
    y: int,
)
    requires
        0 <= x < width,
        0 <= y < height,
    ensures
        ({
            let ops = frame_ops(data, width, height, config);
            &&& ops.len() == height * (width + 1) + 2
            &&& 0 < 1 + y * (width + 1) + x < 1 + y * (width + 1) + width < ops.len() - 1
            &&& ops[0] == DrawOp::MoveHome
            &&& ops[1 + y * (width + 1) + x] == cell_op(pixel_in(data, width, x, y), config)
            &&& ops[1 + y * (width + 1) + width] == DrawOp::Newline
            &&& ops[ops.len() - 1] == DrawOp::Flush
        }),
{
    lemma_body_len(data, width, height, config);
    lemma_body_layout(data, width, height, config, x, y);
}

/// Within the rows drawn so far, the glyph of the pixel at column `x` of
/// row `y` is command `y * (width + 1) + x`, and the row's line break is
/// command `y * (width + 1) + width`.
pub proof fn lemma_body_layout(
    data: Seq<u8>,
    width: int,
    rows: int,
    config: RenderConfig,
    x: int,
    y: int,
)
    requires
        0 <= x < width,
        0 <= y < rows,
    ensures
        ({
            let ops = body_ops(data, width, rows, config);
            &&& 0 <= y * (width + 1) + x < y * (width + 1) + width < ops.len()
            &&& ops[y * (width + 1) + x] == cell_op(pixel_in(data, width, x, y), config)
            &&& ops[y * (width + 1) + width] == DrawOp::Newline
        }),
    decreases rows,
{
    let before = body_ops(data, width, rows - 1, config);
    let row = row_ops(data, width, rows - 1, config);
    lemma_body_len(data, width, rows - 1, config);
    lemma_body_len(data, width, rows, config);
    assert(0 <= y * (width + 1)) by (nonlinear_arith)
        requires
            0 <= y,
            0 <= width,
    ;
    if y < rows - 1 {
        lemma_body_layout(data, width, rows - 1, config, x, y);
    } else {
        assert(row[x] == cell_op(pixel_in(data, width, x, y), config));
        assert(row[width] == DrawOp::Newline);
    }
}

/// A frame moves the cursor home once, as its first command, and flushes
/// once, as its last: every command between the two is a glyph or a line
/// break.
pub proof fn lemma_frame_flushes_once(data: Seq<u8>, width: int, height: int, config: RenderConfig)
    requires
        width >= 0,
    ensures
        forall|i: int|
            0 <= i < frame_ops(data, width, height, config).len() ==> {
                let op = #[trigger] frame_ops(data, width, height, config)[i];
                &&& op == DrawOp::MoveHome <==> i == 0
                &&& op == DrawOp::Flush <==> i == frame_ops(data, width, height, config).len() - 1
            },
{
    lemma_body_draws_only(data, width, height, config);
    let body = body_ops(data, width, height, config);
    let ops = frame_ops(data, width, height, config);
    assert forall|i: int| 0 <= i < ops.len() implies {
        let op = #[trigger] ops[i];
        &&& op == DrawOp::MoveHome <==> i == 0
        &&& op == DrawOp::Flush <==> i == ops.len() - 1
    } by {
        if 0 < i < ops.len() - 1 {
            assert(ops[i] == body[i - 1]);
        }
    }
}

/// The rows drawn so far hold glyphs and line breaks only.
pub proof fn lemma_body_draws_only(data: Seq<u8>, width: int, rows: int, config: RenderConfig)
    requires
        width >= 0,
    ensures
        forall|i: int|
            0 <= i < body_ops(data, width, rows, config).len() ==> {
                let op = #[trigger] body_ops(data, width, rows, config)[i];
                op is Glyph || op is Newline
            },
    decreases rows,
{
    if rows > 0 {
        lemma_body_draws_only(data, width, rows - 1, config);
    }
}

/// In block-character mode every glyph of a frame is the solid block.
pub proof fn lemma_block_mode_draws_solid(
    data: Seq<u8>,
    width: int,
    height: int,
    config: RenderConfig,
)
    requires
        config.block_character,
        width >= 0,
    ensures
        forall|i: int|
            0 <= i < frame_ops(data, width, height, config).len() ==> (#[trigger] frame_ops(
                data,
                width,
                height,
                config,
            )[i] matches DrawOp::Glyph { index, .. } ==> index == SOLID_GLYPH),
{
    lemma_block_mode_body(data, width, height, config);
}

/// In block-character mode every glyph of the rows drawn so far is the
/// solid block.
pub proof fn lemma_block_mode_body(data: Seq<u8>, width: int, rows: int, config: RenderConfig)
    requires
        config.block_character,
        width >= 0,
    ensures
        forall|i: int|
            0 <= i < body_ops(data, width, rows, config).len() ==> (#[trigger] body_ops(
                data,
                width,
                rows,
                config,
            )[i] matches DrawOp::Glyph { index, .. } ==> index == SOLID_GLYPH),
    decreases rows,
{
    if rows > 0 {
        lemma_block_mode_body(data, width, rows - 1, config);
    }
}

} // verus!
