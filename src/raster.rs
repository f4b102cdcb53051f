use crate::glyph::{get_char_pattern, glyph_of, glyph_on, lemma_space_is_blank, pixel_on, GLYPH_HEIGHT, GLYPH_WIDTH, SPACE};
use crate::density::DensityPreset;
use crate::density::preset_chars;
use crate::sampler::{
    grid_of, grid_view, lemma_black_pixels_blank_grid, sample_error, sampled, AsciiPixel, SourceImage,
};
use vstd::arithmetic::div_mod::{lemma_fundamental_div_mod_converse_div, lemma_fundamental_div_mod_converse_mod};
use vstd::prelude::*;

verus! {

/// An RGB image of the `image` crate.
#[verifier::external_body]
pub struct PixelBuffer {
    img: image::RgbImage,
}

/// The width in pixels of a buffer.
pub uninterp spec fn buffer_width(b: PixelBuffer) -> nat;

/// The height in pixels of a buffer.
pub uninterp spec fn buffer_height(b: PixelBuffer) -> nat;

/// The pixels of a buffer, row by row from the top left.
pub uninterp spec fn buffer_pixels(b: PixelBuffer) -> Seq<(u8, u8, u8)>;

/// Relies on `image::RgbImage::from_pixel`: a `w x h` image with every pixel
/// black. It panics when the byte length overflows `usize`.
#[verifier::external_body]
fn black_buffer(w: u32, h: u32) -> (b: PixelBuffer)
    requires
        w * h * 3 <= usize::MAX,
    ensures
        buffer_width(b) == w,
        buffer_height(b) == h,
        buffer_pixels(b) == Seq::new((w * h) as nat, |i: int| (0u8, 0u8, 0u8)),
{
    PixelBuffer { img: image::RgbImage::from_pixel(w, h, image::Rgb([0, 0, 0])) }
}

/// Relies on `image::ImageBuffer::put_pixel`: sets the pixel at `(x, y)`, which
/// is at index `y * width + x`. It panics outside the image.
#[verifier::external_body]
fn put_pixel(b: &mut PixelBuffer, x: u32, y: u32, c: (u8, u8, u8))
    requires
        x < buffer_width(*old(b)),
        y < buffer_height(*old(b)),
    ensures
        buffer_width(*final(b)) == buffer_width(*old(b)),
        buffer_height(*final(b)) == buffer_height(*old(b)),
        buffer_pixels(*final(b)) == buffer_pixels(*old(b)).update(
            y * buffer_width(*old(b)) + x,
            c,
        ),
{
    b.img.put_pixel(x, y, image::Rgb([c.0, c.1, c.2]))
}

/// Relies on `image::ImageBuffer::as_raw`: the packed bytes, three per pixel in
/// pixel order.
#[verifier::external_body]
fn raw_bytes(b: &PixelBuffer) -> (r: Vec<u8>)
    ensures
        r@.len() == 3 * buffer_pixels(*b).len(),
        forall|i: int|
            0 <= i < buffer_pixels(*b).len() ==> r@[3 * i] == #[trigger] buffer_pixels(*b)[i].0
                && r@[3 * i + 1] == buffer_pixels(*b)[i].1 && r@[3 * i + 2]
                == buffer_pixels(*b)[i].2,
{
    b.img.as_raw().clone()
}

/// A rasterized grid: every cell drawn as its glyph, in its colour, on black.
pub struct AsciiImage {
    width: u32,
    height: u32,
    buffer: PixelBuffer,
}

impl AsciiImage {
    /// The width in pixels.
    pub closed spec fn spec_width(&self) -> nat {
        self.width as nat
    }

    /// The height in pixels.
    pub closed spec fn spec_height(&self) -> nat {
        self.height as nat
    }

    /// The pixels, row by row from the top left.
    pub closed spec fn pixels(&self) -> Seq<(u8, u8, u8)> {
        buffer_pixels(self.buffer)
    }

    /// The buffer has the image's dimensions and one entry per pixel.
    pub closed spec fn wf(&self) -> bool {
        &&& buffer_width(self.buffer) == self.width
        &&& buffer_height(self.buffer) == self.height
        &&& buffer_pixels(self.buffer).len() == self.width * self.height
    }

    /// The width in pixels.
    pub fn width(&self) -> (w: u32)
        ensures
            w == self.spec_width(),
    {
        self.width
    }

    /// The height in pixels.
    pub fn height(&self) -> (h: u32)
        ensures
            h == self.spec_height(),
    {
        self.height
    }

    /// The pixels as packed RGB bytes, row by row from the top left.
    pub fn to_rgb_bytes(&self) -> (r: Vec<u8>)
        ensures
            r@.len() == 3 * self.pixels().len(),
            forall|i: int|
                0 <= i < self.pixels().len() ==> r@[3 * i] == #[trigger] self.pixels()[i].0
                    && r@[3 * i + 1] == self.pixels()[i].1 && r@[3 * i + 2] == self.pixels()[i].2,
    {
        raw_bytes(&self.buffer)
    }
}

/// A grid that can be rasterized: at least one row, all rows as long as the
/// first, and an image whose size fits the machine.
pub open spec fn grid_drawable(g: Seq<Seq<AsciiPixel>>) -> bool {
    &&& g.len() > 0
    &&& forall|r: int| 0 <= r < g.len() ==> #[trigger] g[r].len() == g[0].len()
    &&& g[0].len() * 8 <= u32::MAX
    &&& g.len() * 12 <= u32::MAX
    &&& g[0].len() * 8 * (g.len() * 12) * 3 <= usize::MAX
}

/// The colour of pixel `(x, y)` when grid `g` is drawn.
pub open spec fn raster_pixel(g: Seq<Seq<AsciiPixel>>, x: int, y: int) -> (u8, u8, u8) {
    let cell = g[y / 12][x / 8];
    if glyph_on(glyph_of(cell.character), x % 8, y % 12) {
        cell.color
    } else {
        (0u8, 0u8, 0u8)
    }
}

/// The pixels of grid `g` drawn on an image `w` pixels wide and `h` high, row-major.
pub open spec fn raster_of(g: Seq<Seq<AsciiPixel>>, w: int, h: int) -> Seq<(u8, u8, u8)> {
    Seq::new((w * h) as nat, |i: int| raster_pixel(g, i % w, i / w))
}

/// Draws each cell of the grid as its 8x12 glyph in the cell's colour on a
/// black image of `8 * columns` by `12 * rows` pixels.
pub fn rasterize(ascii_data: &Vec<Vec<AsciiPixel>>) -> (img: AsciiImage)
    requires
        grid_drawable(grid_view(ascii_data@)),
    ensures
        img.wf(),
        img.spec_width() == 8 * ascii_data@[0]@.len(),
        img.spec_height() == 12 * ascii_data@.len(),
        img.pixels() == raster_of(
            grid_view(ascii_data@),
            img.spec_width() as int,
            img.spec_height() as int,
        ),
{
    let ghost g = grid_view(ascii_data@);
    assert(g[0] == ascii_data@[0]@);
    let w: u32 = ascii_data[0].len() as u32 * GLYPH_WIDTH;
    let h: u32 = ascii_data.len() as u32 * GLYPH_HEIGHT;
    let mut buffer = black_buffer(w, h);
    let mut y: u32 = 0;
    while y < h
        invariant
            grid_drawable(g),
            g == grid_view(ascii_data@),
            w == 8 * g[0].len(),
            h == 12 * g.len(),
            y <= h,
            buffer_width(buffer) == w,
            buffer_height(buffer) == h,
            buffer_pixels(buffer).len() == w * h,
            forall|i: int|
                0 <= i < y * w && i < w * h ==> #[trigger] buffer_pixels(buffer)[i] == raster_pixel(
                    g,
                    i % (w as int),
                    i / (w as int),
                ),
            forall|i: int|
                y * w <= i < w * h ==> #[trigger] buffer_pixels(buffer)[i] == (0u8, 0u8, 0u8),
        decreases h - y,
    {
        let mut x: u32 = 0;
        while x < w
            invariant
                grid_drawable(g),
                g == grid_view(ascii_data@),
                w == 8 * g[0].len(),
                h == 12 * g.len(),
                y < h,
                x <= w,
                buffer_width(buffer) == w,
                buffer_height(buffer) == h,
                buffer_pixels(buffer).len() == w * h,
                forall|i: int|
                    0 <= i < y * w + x && i < w * h ==> #[trigger] buffer_pixels(buffer)[i] == raster_pixel(
                        g,
                        i % (w as int),
                        i / (w as int),
                    ),
                forall|i: int|
                    y * w + x <= i < w * h ==> #[trigger] buffer_pixels(buffer)[i] == (
                        0u8,
                        0u8,
                        0u8,
                    ),
            decreases w - x,
        {
            let gy = (y / GLYPH_HEIGHT) as usize;
            let gx = (x / GLYPH_WIDTH) as usize;
            assert(g[gy as int].len() == g[0].len());
            assert(ascii_data@[gy as int]@ == g[gy as int]);
            let cell = ascii_data[gy][gx];
            let mask = get_char_pattern(cell.character);
            let ghost idx = y * w + x;
            proof {
                assert(idx < w * h) by (nonlinear_arith)
                    requires
                        idx == y * w + x,
                        y < h,
                        x < w,
                ;
                lemma_fundamental_div_mod_converse_div(idx, w as int, y as int, x as int);
                lemma_fundamental_div_mod_converse_mod(idx, w as int, y as int, x as int);
            }
            if pixel_on(mask, x % GLYPH_WIDTH, y % GLYPH_HEIGHT) {
                put_pixel(&mut buffer, x, y, cell.color);
            }
            assert(buffer_pixels(buffer)[idx] == raster_pixel(g, x as int, y as int));
            x = x + 1;
        }
        assert(y * w + w == (y + 1) * w) by (nonlinear_arith);
        y = y + 1;
    }
    assert(y * w == w * h) by (nonlinear_arith)
        requires
            y == h,
    ;
    assert(buffer_pixels(buffer) =~= raster_of(g, w as int, h as int));
    AsciiImage { width: w, height: h, buffer }
}

/// Whether a grid can be rasterized.
pub fn check_drawable(ascii_data: &Vec<Vec<AsciiPixel>>) -> (ok: bool)
    ensures
        ok == grid_drawable(grid_view(ascii_data@)),
{
    let ghost g = grid_view(ascii_data@);
    if ascii_data.len() == 0 {
        return false;
    }
    let cols = ascii_data[0].len();
    let mut y: usize = 0;
    while y < ascii_data.len()
        invariant
            g == grid_view(ascii_data@),
            g.len() > 0,
            cols == g[0].len(),
            y <= g.len(),
            forall|r: int| 0 <= r < y ==> #[trigger] g[r].len() == cols,
        decreases g.len() - y,
    {
        if ascii_data[y].len() != cols {
            assert(g[y as int].len() != g[0].len());
            return false;
        }
        y = y + 1;
    }
    let rows = ascii_data.len();
    if cols as u128 * 8 > u32::MAX as u128 || rows as u128 * 12 > u32::MAX as u128 {
        return false;
    }
    assert((cols as u128 * 8) * (rows as u128 * 12) * 3 <= u128::MAX) by (nonlinear_arith)
        requires
            cols * 8 <= u32::MAX,
            rows * 12 <= u32::MAX,
    ;
    (cols as u128 * 8) * (rows as u128 * 12) * 3 <= usize::MAX as u128
}

/// Rasterizes a grid when it is drawable, and returns `None` otherwise.
pub fn try_rasterize(ascii_data: &Vec<Vec<AsciiPixel>>) -> (r: Option<AsciiImage>)
    ensures
        r.is_some() == grid_drawable(grid_view(ascii_data@)),
        r matches Some(img) ==> {
            &&& img.wf()
            &&& img.spec_width() == 8 * ascii_data@[0]@.len()
            &&& img.spec_height() == 12 * ascii_data@.len()
            &&& img.pixels() == raster_of(
                grid_view(ascii_data@),
                img.spec_width() as int,
                img.spec_height() as int,
            )
        },
{
    if check_drawable(ascii_data) {
        Some(rasterize(ascii_data))
    } else {
        None
    }
}

/// Cells drawn with the blank glyph, the space's and that of every character
/// outside the glyph table, leave the image black.
pub proof fn lemma_blank_cells_draw_black(g: Seq<Seq<AsciiPixel>>)
    requires
        grid_drawable(g),
        forall|r: int, c: int|
            0 <= r < g.len() && 0 <= c < g[r].len() ==> glyph_of(#[trigger] g[r][c].character)
                == SPACE,
    ensures
        forall|i: int|
            0 <= i < raster_of(g, (8 * g[0].len()) as int, (12 * g.len()) as int).len() ==> #[trigger] raster_of(
                g,
                (8 * g[0].len()) as int,
                (12 * g.len()) as int,
            )[i] == (0u8, 0u8, 0u8),
{
    let w: int = (8 * g[0].len()) as int;
    let h: int = (12 * g.len()) as int;
    assert forall|i: int| 0 <= i < raster_of(g, w, h).len() implies #[trigger] raster_of(
        g,
        w,
        h,
    )[i] == (0u8, 0u8, 0u8) by {
        let (x, y) = (i % w, i / w);
        assert(0 <= x < w && 0 <= y < h) by (nonlinear_arith)
            requires
                0 <= i < w * h,
                w > 0,
                x == i % w,
                y == i / w,
        ;
        assert(0 <= y / 12 < g.len() && 0 <= x / 8 < g[0].len());
        assert(g[y / 12].len() == g[0].len());
        lemma_space_is_blank(x % 8, y % 12);
    }
}

/// A black sampled buffer gives a grid of blanks, which draws an all-black image.
pub proof fn lemma_black_pixels_draw_black(px: Seq<u8>, tw: int, th: int, d: DensityPreset)
    requires
        tw >= 0,
        th >= 0,
        px.len() == tw * th * 4,
        forall|i: int| 0 <= i < px.len() && i % 4 != 3 ==> #[trigger] px[i] == 0,
        grid_drawable(grid_of(px, tw, th, preset_chars(d))),
    ensures
        forall|i: int|
            0 <= i < raster_of(grid_of(px, tw, th, preset_chars(d)), 8 * tw, 12 * th).len()
                ==> #[trigger] raster_of(grid_of(px, tw, th, preset_chars(d)), 8 * tw, 12 * th)[i]
                == (0u8, 0u8, 0u8),
{
    let g = grid_of(px, tw, th, preset_chars(d));
    lemma_black_pixels_blank_grid(px, tw, th, d);
    crate::density::lemma_preset_shape(d);
    assert forall|r: int, c: int| 0 <= r < g.len() && 0 <= c < g[r].len() implies glyph_of(
        #[trigger] g[r][c].character,
    ) == SPACE by {
        assert(g[r][c].character == ' ');
    }
    lemma_blank_cells_draw_black(g);
    assert(g[0].len() == tw && g.len() == th);
}

/// Running the pipeline twice on equal images with equal settings gives equal
/// grids and equal pixels.
pub proof fn lemma_pipeline_deterministic(a: SourceImage, b: SourceImage, tw: int, d: DensityPreset)
    requires
        a.width == b.width,
        a.height == b.height,
        a.pixels@ == b.pixels@,
    ensures
        sample_error(a.width as int, a.height as int, tw) == sample_error(
            b.width as int,
            b.height as int,
            tw,
        ),
        sampled(a, tw, d) == sampled(b, tw, d),
        forall|w: int, h: int| #[trigger]
            raster_of(sampled(a, tw, d), w, h) == raster_of(sampled(b, tw, d), w, h),
{
}

} // verus!
