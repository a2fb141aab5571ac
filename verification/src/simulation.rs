//! The simulation's own state: which of its two instance buffers holds the
//! current board, the birth and survival rules, and how a new board is made
//! from an image or a clear.
use vstd::prelude::*;
use crate::grid::{GRID_WIDTH, GRID_HEIGHT, INSTANCE_SIZE, cell_count, cell_index, in_grid, cell_byte_offset};
use crate::instance::{Instance, pack_color, packed};
use crate::rules::{DEFAULT_BORN_RULES, DEFAULT_SURVIVE_RULES};

verus! {

/// Which of the two ping-pong instance buffers holds the current board.
#[derive(Clone, Copy, Debug, PartialEq, Eq, Structural)]
pub enum CurrentInstanceBuffer {
    A,
    B,
}

/// The buffer that is not `buffer`.
pub open spec fn other_buffer(buffer: CurrentInstanceBuffer) -> CurrentInstanceBuffer {
    match buffer {
        CurrentInstanceBuffer::A => CurrentInstanceBuffer::B,
        CurrentInstanceBuffer::B => CurrentInstanceBuffer::A,
    }
}

/// One RGBA pixel of an image.
#[derive(Clone, Copy, Debug, PartialEq, Eq, Structural)]
pub struct Pixel {
    pub r: u8,
    pub g: u8,
    pub b: u8,
    pub a: u8,
}

/// Why a board could not be made from an image.
#[derive(Debug)]
pub enum BoardError {
    /// The RGBA data does not hold four bytes per pixel of the stated size.
    InvalidImageDataLength { expected: usize, got: usize },
    /// The image file could not be decoded.
    Decode(image::ImageError),
    /// Sampling an image of this size would run past the range of 32-bit
    /// byte offsets into its data.
    UnsupportedDimensions { width: u32, height: u32 },
}

/// The packed colour of an opaque black cell.
pub open spec fn black() -> u32 {
    packed(0, 0, 0, 255) as u32
}

/// `v`, saturated to the range of `u32`.
pub open spec fn saturate_u32(v: int) -> int {
    if v > u32::MAX {
        u32::MAX as int
    } else {
        v
    }
}

/// Length that RGBA data of a `w` by `h` image must have: four bytes per
/// pixel, saturated to the range of `usize`.
pub open spec fn expected_rgba_len(w: int, h: int) -> int {
    if 4 * w * h > usize::MAX {
        usize::MAX as int
    } else {
        4 * w * h
    }
}

/// Image column sampled for board column `x` (scaled, saturating in `u32`).
pub open spec fn source_x(x: int, w: int) -> int {
    saturate_u32(x * w) / (GRID_WIDTH as int)
}

/// Image row sampled for board row `y`; rows are flipped so that the image
/// appears upright.
pub open spec fn source_y(y: int, h: int) -> int {
    saturate_u32((GRID_HEIGHT - 1 - y) * h) / (GRID_HEIGHT as int)
}

/// Byte offset, in the RGBA data of a `w` by `h` image, of the pixel sampled
/// for board cell `(x, y)`.
pub open spec fn sample_offset(x: int, y: int, w: int, h: int) -> int {
    4 * (source_y(y, h) * w + source_x(x, w))
}

/// The sample offset of board cell `(GRID_WIDTH - 1, 0)`, the largest of any
/// cell (see `lemma_sample_offset_bounded`).
pub open spec fn max_sample_offset(w: int, h: int) -> int {
    sample_offset(GRID_WIDTH - 1, 0, w, h)
}

/// Whether every sample of a `w` by `h` image with `len` bytes of data lies
/// inside the data and has a byte offset that fits in 32 bits.
pub open spec fn samples_fit(w: int, h: int, len: int) -> bool {
    max_sample_offset(w, h) <= u32::MAX && max_sample_offset(w, h) + 3 < len
}

/// The pixel whose four bytes start at `offset`.
pub open spec fn pixel_at(rgba: Seq<u8>, offset: int) -> Pixel {
    Pixel { r: rgba[offset], g: rgba[offset + 1], b: rgba[offset + 2], a: rgba[offset + 3] }
}

/// The pixel sampled for the cell at row-major position `i`.
pub open spec fn sampled_pixel(w: int, h: int, rgba: Seq<u8>, i: int) -> Pixel {
    pixel_at(rgba, sample_offset(i % (GRID_WIDTH as int), i / (GRID_WIDTH as int), w, h))
}

/// The board sampled from a `w` by `h` RGBA image, one pixel per cell in
/// row-major order.
pub open spec fn sampled_board(w: int, h: int, rgba: Seq<u8>) -> Seq<Pixel> {
    Seq::new(cell_count() as nat, |i: int| sampled_pixel(w, h, rgba, i))
}

/// The simulation's own state, apart from its GPU resources.
pub struct Simulation {
    pub current_instance_buf: CurrentInstanceBuffer,
    pub born_rules: u16,
    pub survive_rules: u16,
}

/// `w * h * 4`, saturating in `usize`.
pub(crate) fn rgba_len(w: u32, h: u32) -> (len: usize)
    ensures
        len == expected_rgba_len(w as int, h as int),
{
    let pixels = (w as usize).checked_mul(h as usize);
    let len = match pixels {
        Some(p) => match p.checked_mul(4) {
            Some(l) => l,
            None => usize::MAX,
        },
        None => usize::MAX,
    };
    proof {
        assert(0 <= w * h && 4 * w * h == (w * h) * 4) by (nonlinear_arith);
    }
    len
}

/// Every cell's sample offset is at most the largest one, and lies inside the
/// image data when the samples fit.
pub proof fn lemma_sample_offset_bounded(x: int, y: int, w: int, h: int)
    requires
        in_grid(x, y),
        0 <= w <= u32::MAX,
        0 <= h <= u32::MAX,
    ensures
        0 <= sample_offset(x, y, w, h) <= max_sample_offset(w, h),
        0 <= source_x(x, w) <= u32::MAX,
        0 <= source_y(y, h) <= u32::MAX,
{
    let wx = GRID_WIDTH - 1;
    assert(0 <= x * w <= wx * w) by (nonlinear_arith)
        requires
            0 <= x <= wx,
            0 <= w,
    ;
    assert(0 <= (GRID_HEIGHT - 1 - y) * h <= (GRID_HEIGHT - 1) * h) by (nonlinear_arith)
        requires
            0 <= GRID_HEIGHT - 1 - y <= GRID_HEIGHT - 1,
            0 <= h,
    ;
    vstd::arithmetic::div_mod::lemma_div_is_ordered(
        saturate_u32(x * w),
        saturate_u32(wx * w),
        GRID_WIDTH as int,
    );
    vstd::arithmetic::div_mod::lemma_div_is_ordered(
        saturate_u32((GRID_HEIGHT - 1 - y) * h),
        saturate_u32((GRID_HEIGHT - 1) * h),
        GRID_HEIGHT as int,
    );
    vstd::arithmetic::div_mod::lemma_div_pos_is_pos(saturate_u32(x * w), GRID_WIDTH as int);
    vstd::arithmetic::div_mod::lemma_div_pos_is_pos(
        saturate_u32((GRID_HEIGHT - 1 - y) * h),
        GRID_HEIGHT as int,
    );
    let sy = source_y(y, h);
    let msy = source_y(0, h);
    assert(0 <= sy * w <= msy * w) by (nonlinear_arith)
        requires
            0 <= sy <= msy,
            0 <= w,
    ;
}

/// Whether every sample of a `w` by `h` image with `len` bytes of data lies
/// inside the data at a 32-bit byte offset.
pub fn samples_fit_image(w: u32, h: u32, len: usize) -> (fits: bool)
    ensures
        fits == samples_fit(w as int, h as int, len as int),
{
    assert(((GRID_WIDTH - 1) as u64) * (w as u64) <= 400 * 0xffff_ffff) by (nonlinear_arith)
        requires
            w <= 0xffff_ffff,
    ;
    assert(((GRID_HEIGHT - 1) as u64) * (h as u64) <= 300 * 0xffff_ffff) by (nonlinear_arith)
        requires
            h <= 0xffff_ffff,
    ;
    let scaled_x = ((GRID_WIDTH - 1) as u64) * (w as u64);
    let sat_x: u64 = if scaled_x > u32::MAX as u64 {
        u32::MAX as u64
    } else {
        scaled_x
    };
    let src_x = sat_x / (GRID_WIDTH as u64);
    let scaled_y = ((GRID_HEIGHT - 1) as u64) * (h as u64);
    let sat_y: u64 = if scaled_y > u32::MAX as u64 {
        u32::MAX as u64
    } else {
        scaled_y
    };
    let src_y = sat_y / (GRID_HEIGHT as u64);
    assert(src_x == source_x(GRID_WIDTH - 1, w as int));
    assert(src_y == source_y(0, h as int));
    assert(src_y * w <= 0x100_0000 * 0xffff_ffff) by (nonlinear_arith)
        requires
            src_y <= 0xffff_ffffu64 / 300,
            w <= 0xffff_ffff,
    ;
    let max_offset = (src_y * (w as u64) + src_x) * 4;
    assert(max_offset == max_sample_offset(w as int, h as int));
    max_offset <= u32::MAX as u64 && (max_offset as u128) + 3 < (len as u128)
}

impl Simulation {
    /// A simulation showing buffer A, with the default rules.
    pub fn new() -> (sim: Self)
        ensures
            sim.current_instance_buf == CurrentInstanceBuffer::A,
            sim.born_rules == DEFAULT_BORN_RULES,
            sim.survive_rules == DEFAULT_SURVIVE_RULES,
    {
        Simulation {
            current_instance_buf: CurrentInstanceBuffer::A,
            born_rules: DEFAULT_BORN_RULES,
            survive_rules: DEFAULT_SURVIVE_RULES,
        }
    }

    /// Records one simulation step: the step reads the current buffer and
    /// writes the other one, which becomes current and is returned.
    pub fn record(&mut self) -> (written: CurrentInstanceBuffer)
        ensures
            written == other_buffer(old(self).current_instance_buf),
            final(self).current_instance_buf == written,
            final(self).born_rules == old(self).born_rules,
            final(self).survive_rules == old(self).survive_rules,
    {
        let written = match self.current_instance_buf {
            CurrentInstanceBuffer::A => CurrentInstanceBuffer::B,
            CurrentInstanceBuffer::B => CurrentInstanceBuffer::A,
        };
        self.current_instance_buf = written;
        written
    }

    /// Number of cells, hence of instances drawn.
    pub fn num_instances(&self) -> (n: usize)
        ensures
            n == cell_count(),
    {
        (GRID_WIDTH * GRID_HEIGHT) as usize
    }

    /// The buffer that holds the current board.
    pub fn current_instance_buf_to_use(&self) -> (buffer: CurrentInstanceBuffer)
        ensures
            buffer == self.current_instance_buf,
    {
        self.current_instance_buf
    }

    /// Where, in both instance buffers, the colour of cell `(x, y)` is to be
    /// written; `None` when `(x, y)` is off the board, in which case nothing
    /// is written.
    pub fn set_cell_color(&self, x: u32, y: u32) -> (offset: Option<u64>)
        ensures
            offset is Some <==> in_grid(x as int, y as int),
            offset matches Some(o) ==> o == cell_index(x as int, y as int) * INSTANCE_SIZE,
    {
        cell_byte_offset(x, y)
    }

    /// Clears the board: the data to write to both buffers, every cell opaque
    /// black, after which buffer A is current.
    pub fn clear_board(&mut self) -> (cleared: Vec<Instance>)
        ensures
            cleared@.len() == cell_count(),
            forall|i: int| 0 <= i < cleared@.len() ==> (#[trigger] cleared@[i]).color == black(),
            final(self).current_instance_buf == CurrentInstanceBuffer::A,
            final(self).born_rules == old(self).born_rules,
            final(self).survive_rules == old(self).survive_rules,
    {
        let black_cell = Instance { color: pack_color(0, 0, 0, 255) };
        let n = self.num_instances();
        let mut cleared: Vec<Instance> = Vec::new();
        let mut i: usize = 0;
        while i < n
            invariant
                i <= n,
                n == cell_count(),
                cleared@.len() == i,
                black_cell.color == black(),
                forall|j: int| 0 <= j < cleared@.len() ==> (#[trigger] cleared@[j]).color == black(),
            decreases n - i,
        {
            cleared.push(black_cell);
            i = i + 1;
        }
        self.current_instance_buf = CurrentInstanceBuffer::A;
        cleared
    }

    /// The birth rule.
    pub fn born_rules(&self) -> (rules: u16)
        ensures
            rules == self.born_rules,
    {
        self.born_rules
    }

    /// Replaces the birth rule.
    pub fn set_born_rules(&mut self, born_rules: u16)
        ensures
            final(self).born_rules == born_rules,
            final(self).survive_rules == old(self).survive_rules,
            final(self).current_instance_buf == old(self).current_instance_buf,
    {
        self.born_rules = born_rules;
    }

    /// The survival rule.
    pub fn survive_rules(&self) -> (rules: u16)
        ensures
            rules == self.survive_rules,
    {
        self.survive_rules
    }

    /// Replaces the survival rule.
    pub fn set_survive_rules(&mut self, survive_rules: u16)
        ensures
            final(self).survive_rules == survive_rules,
            final(self).born_rules == old(self).born_rules,
            final(self).current_instance_buf == old(self).current_instance_buf,
    {
        self.survive_rules = survive_rules;
    }

    /// Makes a new board from a `image_width` by `image_height` RGBA image:
    /// each cell takes the pixel at its scaled position, rows flipped so that
    /// the image stays upright. On success buffer A becomes current and the
    /// sampled pixels, one per cell in row-major order, are returned for
    /// writing to both buffers; data of the wrong length is refused and
    /// leaves the simulation as it was.
    pub fn set_state_from_rgba_image(
        &mut self,
        image_width: u32,
        image_height: u32,
        rgba_bytes: &[u8],
    ) -> (board: Result<Vec<Pixel>, BoardError>)
        requires
            rgba_bytes@.len() == expected_rgba_len(image_width as int, image_height as int)
                ==> samples_fit(image_width as int, image_height as int, rgba_bytes@.len() as int),
        ensures
            rgba_bytes@.len() != expected_rgba_len(image_width as int, image_height as int) ==> {
                &&& board matches Err(BoardError::InvalidImageDataLength { expected, got })
                &&& expected == expected_rgba_len(image_width as int, image_height as int)
                &&& got == rgba_bytes@.len()
                &&& *final(self) == *old(self)
            },
            rgba_bytes@.len() == expected_rgba_len(image_width as int, image_height as int) ==> {
                &&& board matches Ok(pixels)
                &&& pixels@ == sampled_board(image_width as int, image_height as int, rgba_bytes@)
                &&& final(self).current_instance_buf == CurrentInstanceBuffer::A
                &&& final(self).born_rules == old(self).born_rules
                &&& final(self).survive_rules == old(self).survive_rules
            },
    {
        let expected_len = rgba_len(image_width, image_height);
        if rgba_bytes.len() != expected_len {
            return Err(BoardError::InvalidImageDataLength { expected: expected_len, got: rgba_bytes.len() });
        }
        let ghost w = image_width as int;
        let ghost h = image_height as int;
        let ghost data = rgba_bytes@;
        let mut state_data: Vec<Pixel> = Vec::new();
        let mut y: u32 = 0;
        while y < GRID_HEIGHT
            invariant
                y <= GRID_HEIGHT,
                state_data@.len() == y * GRID_WIDTH,
                samples_fit(w, h, data.len() as int),
                data == rgba_bytes@,
                w == image_width,
                h == image_height,
                forall|i: int|
                    0 <= i < state_data@.len() ==> #[trigger] state_data@[i] == sampled_pixel(
                        w,
                        h,
                        data,
                        i,
                    ),
            decreases GRID_HEIGHT - y,
        {
            let mut x: u32 = 0;
            while x < GRID_WIDTH
                invariant
                    y < GRID_HEIGHT,
                    x <= GRID_WIDTH,
                    state_data@.len() == y * GRID_WIDTH + x,
                    samples_fit(w, h, data.len() as int),
                    data == rgba_bytes@,
                    w == image_width,
                    h == image_height,
                    forall|i: int|
                        0 <= i < state_data@.len() ==> #[trigger] state_data@[i] == sampled_pixel(
                            w,
                            h,
                            data,
                            i,
                        ),
                decreases GRID_WIDTH - x,
            {
                proof {
                    lemma_sample_offset_bounded(x as int, y as int, w, h);
                }
                assert((x as u64) * (image_width as u64) <= 400 * 0xffff_ffff) by (nonlinear_arith)
                    requires
                        x < 400,
                ;
                assert(((GRID_HEIGHT - 1 - y) as u64) * (image_height as u64) <= 300 * 0xffff_ffff)
                    by (nonlinear_arith)
                    requires
                        y < 300,
                ;
                let scaled_x = (x as u64) * (image_width as u64);
                let sat_x: u32 = if scaled_x > u32::MAX as u64 {
                    u32::MAX
                } else {
                    scaled_x as u32
                };
                let src_x = sat_x / GRID_WIDTH;
                let scaled_y = ((GRID_HEIGHT - 1 - y) as u64) * (image_height as u64);
                let sat_y: u32 = if scaled_y > u32::MAX as u64 {
                    u32::MAX
                } else {
                    scaled_y as u32
                };
                let src_y = sat_y / GRID_HEIGHT;
                assert(src_x == source_x(x as int, w));
                assert(src_y == source_y(y as int, h));
                let src_idx = (((src_y as u64) * (image_width as u64) + (src_x as u64)) * 4) as usize;
                assert(src_idx == sample_offset(x as int, y as int, w, h));
                let pixel = Pixel {
                    r: rgba_bytes[src_idx],
                    g: rgba_bytes[src_idx + 1],
                    b: rgba_bytes[src_idx + 2],
                    a: rgba_bytes[src_idx + 3],
                };
                let ghost i = state_data@.len() as int;
                proof {
                    assert(i == y * GRID_WIDTH + x);
                    assert(i % (GRID_WIDTH as int) == x && i / (GRID_WIDTH as int) == y);
                }
                state_data.push(pixel);
                x = x + 1;
            }
            y = y + 1;
        }
        self.current_instance_buf = CurrentInstanceBuffer::A;
        proof {
            assert(state_data@ =~= sampled_board(w, h, data));
        }
        Ok(state_data)
    }
}

/// Each sampled pixel lies inside the image: its column is below the image's
/// width and its row below its height, so data of four bytes per pixel holds
/// all four of its bytes.
pub proof fn lemma_samples_inside_image(x: int, y: int, w: int, h: int)
    requires
        in_grid(x, y),
        0 < w <= u32::MAX,
        0 < h <= u32::MAX,
    ensures
        0 <= source_x(x, w) < w,
        0 <= source_y(y, h) < h,
        0 <= sample_offset(x, y, w, h) && sample_offset(x, y, w, h) + 3 < 4 * w * h,
{
    let gw = GRID_WIDTH as int;
    let gh = GRID_HEIGHT as int;
    assert(0 <= x * w < gw * w) by (nonlinear_arith)
        requires
            0 <= x < gw,
            0 < w,
    ;
    assert(0 <= (gh - 1 - y) * h < gh * h) by (nonlinear_arith)
        requires
            0 <= gh - 1 - y < gh,
            0 < h,
    ;
    vstd::arithmetic::div_mod::lemma_div_is_ordered(saturate_u32(x * w), gw * w - 1, gw);
    vstd::arithmetic::div_mod::lemma_div_is_ordered(saturate_u32((gh - 1 - y) * h), gh * h - 1, gh);
    assert((gw * w - 1) / gw < w) by {
        vstd::arithmetic::div_mod::lemma_div_by_multiple_is_strongly_ordered(gw * w - 1, gw * w, w, gw);
        vstd::arithmetic::div_mod::lemma_div_by_multiple(w, gw);
        assert(gw * w == w * gw) by (nonlinear_arith);
    }
    assert((gh * h - 1) / gh < h) by {
        vstd::arithmetic::div_mod::lemma_div_by_multiple_is_strongly_ordered(gh * h - 1, gh * h, h, gh);
        vstd::arithmetic::div_mod::lemma_div_by_multiple(h, gh);
        assert(gh * h == h * gh) by (nonlinear_arith);
    }
    vstd::arithmetic::div_mod::lemma_div_pos_is_pos(saturate_u32(x * w), gw);
    vstd::arithmetic::div_mod::lemma_div_pos_is_pos(saturate_u32((gh - 1 - y) * h), gh);
    let sx = source_x(x, w);
    let sy = source_y(y, h);
    assert(0 <= sy * w + sx && sy * w + sx <= w * h - 1) by (nonlinear_arith)
        requires
            0 <= sx < w,
            0 <= sy < h,
    ;
    assert(4 * w * h == 4 * (w * h)) by (nonlinear_arith);
}

/// An image of exactly the board's size is copied cell for cell, upside down:
/// board cell `(x, y)` takes image pixel `(x, GRID_HEIGHT - 1 - y)`.
pub proof fn lemma_board_sized_image_is_flipped_copy(x: int, y: int)
    requires
        in_grid(x, y),
    ensures
        source_x(x, GRID_WIDTH as int) == x,
        source_y(y, GRID_HEIGHT as int) == GRID_HEIGHT - 1 - y,
        sample_offset(x, y, GRID_WIDTH as int, GRID_HEIGHT as int) == 4 * cell_index(
            x,
            GRID_HEIGHT - 1 - y,
        ),
{
    let gw = GRID_WIDTH as int;
    let gh = GRID_HEIGHT as int;
    assert(x * gw <= u32::MAX && (gh - 1 - y) * gh <= u32::MAX) by (nonlinear_arith)
        requires
            0 <= x < 400,
            0 <= y < 300,
            gw == 400,
            gh == 300,
    ;
    vstd::arithmetic::div_mod::lemma_div_by_multiple(x, gw);
    vstd::arithmetic::div_mod::lemma_div_by_multiple(gh - 1 - y, gh);
}

/// A cleared cell is opaque black: red, green and blue 0, alpha 255.
pub proof fn lemma_black_is_opaque_black()
    ensures
        black() == 0xFF00_0000u32,
{
}

/// Image data of a `w` by `h` image must hold four bytes per pixel.
pub proof fn lemma_expected_rgba_len(w: int, h: int)
    requires
        0 <= w,
        0 <= h,
        4 * w * h <= usize::MAX,
    ensures
        expected_rgba_len(w, h) == 4 * w * h,
{
}

/// Each board cell samples the image pixel at its proportional position:
/// column `x` of the board takes image column `floor(x * w / GRID_WIDTH)`,
/// and row `y` takes image row `floor((GRID_HEIGHT - 1 - y) * h / GRID_HEIGHT)`,
/// counted from the other end so that the image appears upright (while these
/// products fit in 32 bits, as they do for any image the board can hold).
pub proof fn lemma_source_is_scaled_position(x: int, y: int, w: int, h: int)
    requires
        in_grid(x, y),
        0 <= w,
        0 <= h,
        x * w <= u32::MAX,
        (GRID_HEIGHT - 1 - y) * h <= u32::MAX,
    ensures
        source_x(x, w) * GRID_WIDTH <= x * w < (source_x(x, w) + 1) * GRID_WIDTH,
        source_y(y, h) * GRID_HEIGHT <= (GRID_HEIGHT - 1 - y) * h < (source_y(y, h) + 1)
            * GRID_HEIGHT,
        sample_offset(x, y, w, h) == 4 * (source_y(y, h) * w + source_x(x, w)),
{
    vstd::arithmetic::div_mod::lemma_fundamental_div_mod(x * w, GRID_WIDTH as int);
    vstd::arithmetic::div_mod::lemma_fundamental_div_mod(
        (GRID_HEIGHT - 1 - y) * h,
        GRID_HEIGHT as int,
    );
}

} // verus!
