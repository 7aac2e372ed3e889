//! Frame capture: renders a fixed number of frames to a square off-screen
//! texture and keeps the pixels of each.
//!
//! A texture is copied to a buffer row by row, each row padded to a multiple
//! of the device's row alignment. This module lays such a buffer out and
//! takes the padding off again.
use vstd::prelude::*;
use vstd::arithmetic::div_mod::lemma_fundamental_div_mod_converse;
use crate::ctx::{DrawingContext, DrawingContextType, Size, TextureDrawingContext};
use crate::gpu::{copy_row_alignment, COPY_ROW_ALIGNMENT};

verus! {

/// The bytes of one pixel: red, green, blue and alpha.
pub const BYTES_PER_PIXEL: u32 = 4;

/// The sample count of a capture that multisamples.
pub const MSAA_SAMPLE_COUNT: u32 = 4;

/// The bytes to add to a row of `unpadded` bytes so that its length is a
/// multiple of `align`.
pub open spec fn row_padding(unpadded: int, align: int) -> int {
    (align - unpadded % align) % align
}

/// The length of a row of `unpadded` bytes once it is padded to a multiple
/// of `align`.
pub open spec fn padded_row(unpadded: int, align: int) -> int {
    unpadded + row_padding(unpadded, align)
}

/// The rows that `len` bytes hold when a row takes `padded` bytes. A last
/// row that is cut short counts.
pub open spec fn row_count(len: int, padded: int) -> int {
    if len % padded == 0 {
        len / padded
    } else {
        len / padded + 1
    }
}

/// Whether every row of `len` bytes, `padded` bytes to the row, holds at
/// least `unpadded` bytes: the last one is whole, or cut inside its padding.
pub open spec fn rows_complete(len: int, padded: int, unpadded: int) -> bool {
    len % padded == 0 || len % padded >= unpadded
}

/// The pixels of `data` without the padding: of each row of `padded` bytes
/// the first `unpadded`, row after row.
pub open spec fn stripped(data: Seq<u8>, padded: int, unpadded: int) -> Seq<u8> {
    Seq::new(
        (row_count(data.len() as int, padded) * unpadded) as nat,
        |i: int| data[(i / unpadded) * padded + i % unpadded],
    )
}

/// How the pixels of a square frame lie in the buffer they are read back
/// from.
#[derive(Debug, Clone, Copy, PartialEq, Eq, Structural)]
pub struct RowLayout {
    /// The bytes of the pixels of one row.
    pub unpadded_bytes_per_row: u32,
    /// The bytes a row takes in the buffer.
    pub padded_bytes_per_row: u32,
    /// The rows of the frame.
    pub rows: u32,
}

impl RowLayout {
    /// The layout of a frame of `size` by `size` pixels.
    pub open spec fn of(size: u32) -> RowLayout {
        RowLayout {
            unpadded_bytes_per_row: (BYTES_PER_PIXEL * size) as u32,
            padded_bytes_per_row: padded_row(
                BYTES_PER_PIXEL * size,
                COPY_ROW_ALIGNMENT as int,
            ) as u32,
            rows: size,
        }
    }

    /// Whether a padded row of a frame of `size` by `size` pixels has a
    /// length that the device can be told.
    pub open spec fn fits(size: u32) -> bool {
        padded_row(BYTES_PER_PIXEL * size, COPY_ROW_ALIGNMENT as int) <= u32::MAX
    }

    /// The layout of a frame of `size` by `size` pixels, or `None` when a
    /// padded row would be longer than the device can be told.
    pub fn new(size: u32) -> (layout: Option<RowLayout>)
        ensures
            layout is Some <==> RowLayout::fits(size),
            layout is Some ==> layout->Some_0 == RowLayout::of(size),
    {
        let align: u32 = copy_row_alignment();
        if size > u32::MAX / BYTES_PER_PIXEL {
            return None;
        }
        let unpadded: u32 = BYTES_PER_PIXEL * size;
        let padding: u32 = (align - unpadded % align) % align;
        if padding > u32::MAX - unpadded {
            return None;
        }
        Some(
            RowLayout {
                unpadded_bytes_per_row: unpadded,
                padded_bytes_per_row: unpadded + padding,
                rows: size,
            },
        )
    }

    /// The bytes of the padding at the end of each row.
    pub fn padding(&self) -> (padding: u32)
        requires
            self.unpadded_bytes_per_row <= self.padded_bytes_per_row,
        ensures
            padding == self.padded_bytes_per_row - self.unpadded_bytes_per_row,
    {
        self.padded_bytes_per_row - self.unpadded_bytes_per_row
    }

    /// The bytes of the buffer that holds the whole frame.
    pub fn buffer_size(&self) -> (bytes: u64)
        ensures
            bytes == self.padded_bytes_per_row * self.rows,
    {
        proof {
            assert(self.padded_bytes_per_row * self.rows <= u32::MAX * u32::MAX) by (nonlinear_arith)
                requires
                    0 <= self.padded_bytes_per_row <= u32::MAX,
                    0 <= self.rows <= u32::MAX,
            ;
        }
        (self.padded_bytes_per_row as u64) * (self.rows as u64)
    }
}

/// A padded row is the shortest row of a multiple of the alignment that
/// holds the pixels.
pub proof fn lemma_padded_row_is_least_multiple(unpadded: int, align: int)
    requires
        0 <= unpadded,
        0 < align,
    ensures
        padded_row(unpadded, align) % align == 0,
        unpadded <= padded_row(unpadded, align) < unpadded + align,
{
    let rem = unpadded % align;
    let quot = unpadded / align;
    assert(unpadded == quot * align + rem && 0 <= rem < align) by (nonlinear_arith)
        requires
            0 <= unpadded,
            0 < align,
            rem == unpadded % align,
            quot == unpadded / align,
    ;
    if rem == 0 {
        lemma_fundamental_div_mod_converse(align, align, 1, 0);
        lemma_fundamental_div_mod_converse(unpadded, align, quot, 0);
    } else {
        lemma_fundamental_div_mod_converse(align - rem, align, 0, align - rem);
        assert(unpadded + (align - rem) == (quot + 1) * align) by (nonlinear_arith)
            requires
                unpadded == quot * align + rem,
        ;
        lemma_fundamental_div_mod_converse(unpadded + (align - rem), align, quot + 1, 0);
    }
}

/// The byte at column `col` of row `row`, `width` bytes to the row, lies at
/// an index that divides back into that row and column.
proof fn lemma_row_and_column(row: int, col: int, width: int)
    requires
        0 <= row,
        0 <= col < width,
    ensures
        (row * width + col) / width == row,
        (row * width + col) % width == col,
{
    lemma_fundamental_div_mod_converse(row * width + col, width, row, col);
}

/// When `rest` bytes follow `row` whole rows, the rows are `row` and one
/// more, and a last row that is cut short holds `rest` bytes.
proof fn lemma_last_row(len: int, padded: int, row: int, rest: int)
    requires
        0 <= row,
        0 < rest <= padded,
        len == row * padded + rest,
    ensures
        row_count(len, padded) == row + 1,
        rest < padded ==> len % padded == rest,
{
    if rest == padded {
        assert(len == (row + 1) * padded + 0) by (nonlinear_arith)
            requires
                len == row * padded + rest,
                rest == padded,
        ;
        lemma_fundamental_div_mod_converse(len, padded, row + 1, 0);
    } else {
        lemma_fundamental_div_mod_converse(len, padded, row, rest);
    }
}

/// Takes the padding off the rows of `padded_data`: of each row of
/// `padded_bytes_per_row` bytes the first `unpadded_bytes_per_row` are kept,
/// in order.
pub fn strip_row_padding(
    padded_data: &[u8],
    padded_bytes_per_row: usize,
    unpadded_bytes_per_row: usize,
) -> (pixels: Vec<u8>)
    requires
        0 < padded_bytes_per_row,
        unpadded_bytes_per_row <= padded_bytes_per_row,
        rows_complete(
            padded_data@.len() as int,
            padded_bytes_per_row as int,
            unpadded_bytes_per_row as int,
        ),
    ensures
        pixels@ == stripped(
            padded_data@,
            padded_bytes_per_row as int,
            unpadded_bytes_per_row as int,
        ),
{
    let len: usize = padded_data.len();
    let ghost padded = padded_bytes_per_row as int;
    let ghost unpadded = unpadded_bytes_per_row as int;
    let mut pixels: Vec<u8> = Vec::new();
    let mut start: usize = 0;
    let ghost mut row: int = 0;
    proof {
        lemma_fundamental_div_mod_converse(0, padded, 0, 0);
    }
    while start < len
        invariant
            len == padded_data@.len(),
            padded == padded_bytes_per_row as int,
            unpadded == unpadded_bytes_per_row as int,
            0 < padded,
            0 <= unpadded <= padded,
            rows_complete(len as int, padded, unpadded),
            0 <= row,
            start <= len,
            start < len ==> start == row * padded,
            start == len ==> row == row_count(len as int, padded),
            pixels@.len() == row * unpadded,
            forall|i: int|
                0 <= i < pixels@.len() ==> #[trigger] pixels@[i] == padded_data@[(i / unpadded)
                    * padded + i % unpadded],
        decreases len - start,
    {
        let rest: usize = len - start;
        proof {
            if rest < padded {
                lemma_last_row(len as int, padded, row, rest as int);
            }
            assert(row * unpadded <= row * padded) by (nonlinear_arith)
                requires
                    0 <= row,
                    0 <= unpadded <= padded,
            ;
        }
        let mut col: usize = 0;
        while col < unpadded_bytes_per_row
            invariant
                len == padded_data@.len(),
                unpadded == unpadded_bytes_per_row as int,
                0 <= row,
                start == row * padded,
                start + unpadded <= len,
                col <= unpadded_bytes_per_row,
                pixels@.len() == row * unpadded + col,
                forall|i: int|
                    0 <= i < pixels@.len() ==> #[trigger] pixels@[i] == padded_data@[(i
                        / unpadded) * padded + i % unpadded],
            decreases unpadded_bytes_per_row - col,
        {
            proof {
                lemma_row_and_column(row, col as int, unpadded);
            }
            pixels.push(padded_data[start + col]);
            col += 1;
        }
        proof {
            if rest <= padded {
                lemma_last_row(len as int, padded, row, rest as int);
            }
            assert((row + 1) * padded == row * padded + padded) by (nonlinear_arith);
            assert((row + 1) * unpadded == row * unpadded + unpadded) by (nonlinear_arith);
            row = row + 1;
        }
        if rest <= padded_bytes_per_row {
            start = len;
        } else {
            start = start + padded_bytes_per_row;
        }
    }
    assert(pixels@ =~= stripped(padded_data@, padded, unpadded));
    pixels
}

/// Adds the pixels of the frame that was read back as `padded_data` to the
/// frames captured so far.
pub fn push_frame(frames: &mut Vec<Vec<u8>>, padded_data: &[u8], layout: &RowLayout)
    requires
        0 < layout.padded_bytes_per_row,
        layout.unpadded_bytes_per_row <= layout.padded_bytes_per_row,
        rows_complete(
            padded_data@.len() as int,
            layout.padded_bytes_per_row as int,
            layout.unpadded_bytes_per_row as int,
        ),
    ensures
        final(frames)@.len() == old(frames)@.len() + 1,
        final(frames)@.drop_last() == old(frames)@,
        final(frames)@.last()@ == stripped(
            padded_data@,
            layout.padded_bytes_per_row as int,
            layout.unpadded_bytes_per_row as int,
        ),
{
    let pixels = strip_row_padding(
        padded_data,
        layout.padded_bytes_per_row as usize,
        layout.unpadded_bytes_per_row as usize,
    );
    frames.push(pixels);
    assert(frames@.drop_last() =~= old(frames)@);
}

/// Takes what came of reading a frame back. A frame that was read is
/// stripped of its padding and added to the frames captured so far; one
/// that could not be read is left out, and the capture goes on without it.
pub fn take_frame(frames: &mut Vec<Vec<u8>>, mapped: Option<&[u8]>, layout: &RowLayout) -> (kept:
    bool)
    requires
        mapped is Some ==> 0 < layout.padded_bytes_per_row && layout.unpadded_bytes_per_row
            <= layout.padded_bytes_per_row && rows_complete(
            mapped->Some_0@.len() as int,
            layout.padded_bytes_per_row as int,
            layout.unpadded_bytes_per_row as int,
        ),
    ensures
        kept == mapped is Some,
        !kept ==> final(frames)@ == old(frames)@,
        kept ==> final(frames)@.len() == old(frames)@.len() + 1 && final(frames)@.drop_last()
            == old(frames)@ && final(frames)@.last()@ == stripped(
            mapped->Some_0@,
            layout.padded_bytes_per_row as int,
            layout.unpadded_bytes_per_row as int,
        ),
{
    match mapped {
        Some(padded_data) => {
            push_frame(frames, padded_data, layout);
            true
        },
        None => false,
    }
}

/// A capture of square frames: the side of a frame in pixels, the sample
/// count, and the texture-backed context that the frames are drawn to.
#[derive(Debug)]
pub struct Gif {
    pub size: u32,
    pub sample_count: u32,
    pub ctx: DrawingContext,
}

impl Gif {
    /// A capture of frames of `size` by `size` pixels in 8-bit sRGB with
    /// alpha, multisampled four times when `msaa` is set.
    pub fn new(size: u32, msaa: bool) -> (capture: Self)
        ensures
            capture.size == size,
            capture.sample_count == if msaa { MSAA_SAMPLE_COUNT } else { 1 },
            capture.ctx.sample_count == capture.sample_count,
            capture.ctx.ty == DrawingContextType::Texture(
                TextureDrawingContext {
                    format: wgpu::TextureFormat::Rgba8UnormSrgb,
                    size: Size { width: size, height: size },
                },
            ),
    {
        let sample_count: u32 = if msaa { MSAA_SAMPLE_COUNT } else { 1 };
        let ctx = DrawingContext::new_for_texture(
            Size::new(size, size),
            wgpu::TextureFormat::Rgba8UnormSrgb,
        ).with_sample_count(sample_count);
        Self { size, sample_count, ctx }
    }

    /// How a frame of this capture lies in the buffer it is read back from,
    /// or `None` when its rows are too long for the device.
    pub fn row_layout(&self) -> (layout: Option<RowLayout>)
        ensures
            layout is Some <==> RowLayout::fits(self.size),
            layout is Some ==> layout->Some_0 == RowLayout::of(self.size),
    {
        RowLayout::new(self.size)
    }
}

} // verus!
