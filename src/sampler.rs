use crate::density::{preset_chars, DensityPreset};
use colored::Colorize;
use vstd::prelude::*;
use vstd::string::StringExecFns;

verus! {

/// One grid cell: the character chosen for a sample and the sample's colour.
#[derive(Clone, Copy, Debug, PartialEq, Eq)]
pub struct AsciiPixel {
    pub character: char,
    pub color: (u8, u8, u8),
}

/// A decoded source image: `width * height` pixels, four bytes (R, G, B, A)
/// each, row by row from the top left.
pub struct SourceImage {
    pub width: u32,
    pub height: u32,
    pub pixels: Vec<u8>,
}

impl SourceImage {
    /// The buffer holds exactly one RGBA pixel per position.
    pub open spec fn wf(&self) -> bool {
        self.pixels@.len() == self.width * self.height * 4
    }
}

/// Why no grid can be sampled for the requested size.
#[derive(Clone, Copy, Debug, PartialEq, Eq, Structural)]
pub enum ProcessError {
    /// The source image has no pixel.
    EmptySource,
    /// The requested width is zero.
    ZeroWidth,
    /// The derived height rounds to zero.
    ZeroHeight,
    /// The grid would not fit in memory addressing.
    TooLarge,
}

/// `round(tw * h / w * 0.5)`, halves rounded up: the grid height that keeps
/// the source's aspect ratio for cells twice as tall as wide.
pub open spec fn target_height_of(w: int, h: int, tw: int) -> int {
    (tw * h + w) / (2 * w)
}

/// Perceptual luma scaled to `[0, 255000]`: `1000 * (0.299 R + 0.587 G + 0.114 B)`.
pub open spec fn luma(r: u8, g: u8, b: u8) -> int {
    299 * r + 587 * g + 114 * b
}

/// `floor(brightness * (n - 1))` for brightness `l / 255000`.
pub open spec fn char_index(l: int, n: int) -> int {
    l * (n - 1) / 255000
}

/// The cell sampled from pixel `i` of an RGBA buffer.
pub open spec fn cell_of(px: Seq<u8>, i: int, chars: Seq<char>) -> AsciiPixel {
    let (r, g, b) = (px[4 * i], px[4 * i + 1], px[4 * i + 2]);
    AsciiPixel { character: chars[char_index(luma(r, g, b), chars.len() as int)], color: (r, g, b) }
}

/// The grid sampled from a `tw x th` RGBA buffer, row-major.
pub open spec fn grid_of(px: Seq<u8>, tw: int, th: int, chars: Seq<char>) -> Seq<Seq<AsciiPixel>> {
    Seq::new(th as nat, |r: int| Seq::new(tw as nat, |c: int| cell_of(px, r * tw + c, chars)))
}

/// A grid of vectors, seen as a sequence of rows.
pub open spec fn grid_view(g: Seq<Vec<AsciiPixel>>) -> Seq<Seq<AsciiPixel>> {
    g.map_values(|row: Vec<AsciiPixel>| row@)
}

/// What `image::imageops::resize` with the nearest filter returns, as raw RGBA bytes.
pub uninterp spec fn nearest_resized(px: Seq<u8>, w: nat, h: nat, tw: nat, th: nat) -> Seq<u8>;

/// The error, if any, that sampling a `w x h` source at width `tw` meets.
pub open spec fn sample_error(w: int, h: int, tw: int) -> Option<ProcessError> {
    if w == 0 || h == 0 {
        Some(ProcessError::EmptySource)
    } else if tw == 0 {
        Some(ProcessError::ZeroWidth)
    } else if target_height_of(w, h, tw) == 0 {
        Some(ProcessError::ZeroHeight)
    } else if target_height_of(w, h, tw) > u32::MAX || tw * target_height_of(w, h, tw) * 4
        > usize::MAX {
        Some(ProcessError::TooLarge)
    } else {
        None
    }
}

/// The grid that sampling `src` at width `tw` with preset `d` yields, when no error stops it.
pub open spec fn sampled(src: SourceImage, tw: int, d: DensityPreset) -> Seq<Seq<AsciiPixel>> {
    let th = target_height_of(src.width as int, src.height as int, tw);
    grid_of(
        nearest_resized(src.pixels@, src.width as nat, src.height as nat, tw as nat, th as nat),
        tw,
        th,
        preset_chars(d),
    )
}

/// The grid height for a source of `w x h` pixels drawn `tw` characters wide.
pub fn derive_target_height(w: u32, h: u32, tw: u32) -> (th: u64)
    requires
        w > 0,
    ensures
        th == target_height_of(w as int, h as int, tw as int),
{
    let (w, h, tw) = (w as u64, h as u64, tw as u64);
    assert(tw * h + w <= u64::MAX) by (nonlinear_arith)
        requires
            tw <= u32::MAX,
            h <= u32::MAX,
            w <= u32::MAX,
    ;
    (tw * h + w) / (2 * w)
}

/// The palette index for a pixel's colour in a palette of `n` characters.
pub fn select_char_index(r: u8, g: u8, b: u8, n: usize) -> (i: usize)
    requires
        n >= 1,
    ensures
        i == char_index(luma(r, g, b), n as int),
        i < n,
{
    let l: u128 = 299 * (r as u128) + 587 * (g as u128) + 114 * (b as u128);
    let m: u128 = (n - 1) as u128;
    proof {
        lemma_index_in_range(luma(r, g, b), n as int);
    }
    assert(l * m <= 255000 * m) by (nonlinear_arith)
        requires
            l <= 255000,
    ;
    ((l * m) / 255000) as usize
}

/// A palette index is never past the palette's end; black picks the first
/// character and white the last.
pub proof fn lemma_index_in_range(l: int, n: int)
    requires
        0 <= l <= 255000,
        n >= 1,
    ensures
        0 <= char_index(l, n) < n,
        char_index(0, n) == 0,
        char_index(255000, n) == n - 1,
{
    assert(0 <= l * (n - 1) <= 255000 * (n - 1)) by (nonlinear_arith)
        requires
            0 <= l <= 255000,
            n >= 1,
    ;
    assert(char_index(255000, n) == n - 1) by (nonlinear_arith)
        requires
            n >= 1,
    ;
}

/// The cell sampled from the RGBA pixel whose bytes start at offset `k`.
fn sample_cell(px: &Vec<u8>, k: usize, chars: &Vec<char>) -> (cell: AsciiPixel)
    requires
        k % 4 == 0,
        k + 3 < px@.len(),
        chars@.len() >= 1,
    ensures
        cell == cell_of(px@, k as int / 4, chars@),
{
    let (r, g, b) = (px[k], px[k + 1], px[k + 2]);
    let i = select_char_index(r, g, b, chars.len());
    AsciiPixel { character: chars[i], color: (r, g, b) }
}

/// Samples a `tw x th` RGBA buffer into a grid of cells, one per pixel.
pub fn sample_grid(px: &Vec<u8>, tw: u32, th: u32, chars: &Vec<char>) -> (grid: Vec<
    Vec<AsciiPixel>,
>)
    requires
        px@.len() == tw * th * 4,
        chars@.len() >= 1,
    ensures
        grid_view(grid@) == grid_of(px@, tw as int, th as int, chars@),
{
    let mut grid: Vec<Vec<AsciiPixel>> = Vec::new();
    let total: usize = px.len();
    let mut k: usize = 0;
    let mut y: u32 = 0;
    while y < th
        invariant
            px@.len() == tw * th * 4,
            total == px@.len(),
            chars@.len() >= 1,
            y <= th,
            k == 4 * (y * tw),
            grid@.len() == y,
            forall|r: int|
                0 <= r < y ==> #[trigger] grid@[r]@ == grid_of(px@, tw as int, th as int, chars@)[r],
        decreases th - y,
    {
        let mut row: Vec<AsciiPixel> = Vec::new();
        let mut x: u32 = 0;
        while x < tw
            invariant
                px@.len() == tw * th * 4,
                total == px@.len(),
                chars@.len() >= 1,
                y < th,
                x <= tw,
                k == 4 * (y * tw + x),
                row@.len() == x,
                forall|c: int|
                    0 <= c < x ==> #[trigger] row@[c] == cell_of(px@, y * tw + c, chars@),
            decreases tw - x,
        {
            assert(4 * (y * tw + x + 1) <= tw * th * 4) by (nonlinear_arith)
                requires
                    y < th,
                    x < tw,
            ;
            let cell = sample_cell(px, k, chars);
            row.push(cell);
            k = k + 4;
            x = x + 1;
        }
        assert(row@ =~= grid_of(px@, tw as int, th as int, chars@)[y as int]);
        grid.push(row);
        assert((y + 1) * tw == y * tw + tw) by (nonlinear_arith);
        y = y + 1;
    }
    assert(grid_view(grid@) =~= grid_of(px@, tw as int, th as int, chars@));
    grid
}

/// Relies on `image::RgbaImage::from_raw` and `image::imageops::resize` with
/// `FilterType::Nearest`: an image of exactly `tw x th` RGBA pixels.
#[verifier::external_body]
fn resize_nearest(src: &SourceImage, tw: u32, th: u32) -> (px: Vec<u8>)
    requires
        src.wf(),
        src.width > 0,
        src.height > 0,
        tw > 0,
        th > 0,
        tw * th * 4 <= usize::MAX,
    ensures
        px@ == nearest_resized(src.pixels@, src.width as nat, src.height as nat, tw as nat, th as nat),
        px@.len() == tw * th * 4,
{
    let img = image::RgbaImage::from_raw(src.width, src.height, src.pixels.clone()).unwrap();
    image::imageops::resize(&img, tw, th, image::imageops::FilterType::Nearest).into_raw()
}

/// Samples a source image into a grid `tw` characters wide with preset `d`.
pub fn sample_image(src: &SourceImage, tw: u32, d: DensityPreset) -> (r: Result<
    Vec<Vec<AsciiPixel>>,
    ProcessError,
>)
    requires
        src.wf(),
    ensures
        match sample_error(src.width as int, src.height as int, tw as int) {
            Some(e) => r == Err::<Vec<Vec<AsciiPixel>>, ProcessError>(e),
            None => r.is_ok() && grid_view(r->Ok_0@) == sampled(*src, tw as int, d),
        },
{
    if src.width == 0 || src.height == 0 {
        return Err(ProcessError::EmptySource);
    }
    if tw == 0 {
        return Err(ProcessError::ZeroWidth);
    }
    let th = derive_target_height(src.width, src.height, tw);
    if th == 0 {
        return Err(ProcessError::ZeroHeight);
    }
    if th > u32::MAX as u64 {
        return Err(ProcessError::TooLarge);
    }
    let th = th as u32;
    assert((tw as u128) * (th as u128) * 4 <= u128::MAX) by (nonlinear_arith)
        requires
            tw <= u32::MAX,
            th <= u32::MAX,
    ;
    if (tw as u128) * (th as u128) * 4 > usize::MAX as u128 {
        return Err(ProcessError::TooLarge);
    }
    let px = resize_nearest(src, tw, th);
    let chars = d.get_chars();
    Ok(sample_grid(&px, tw, th, &chars))
}

/// What a coloured character looks like whatever the terminal settings: the
/// bare character, or the character wrapped in an escape sequence that ends in
/// a reset.
pub open spec fn colored_form(s: Seq<char>, c: char) -> bool {
    ||| s == seq![c]
    ||| s.len() >= 5 && s[0] == '\x1b' && s[s.len() - 5] == c && s.subrange(
        s.len() - 4,
        s.len() as int,
    ) == seq!['\x1b', '[', '0', 'm']
}

/// Relies on `colored::Colorize::truecolor` and the `Display` of
/// `ColoredString`: plain input when colouring is off, else a style sequence,
/// the input, and the reset sequence. Which one depends on the environment.
#[verifier::external_body]
fn colorize(c: char, r: u8, g: u8, b: u8) -> (s: String)
    ensures
        colored_form(s@, c),
{
    c.to_string().truecolor(r, g, b).to_string()
}

/// The pieces of one row, joined.
pub open spec fn row_text(pieces: Seq<Seq<char>>) -> Seq<char>
    decreases pieces.len(),
{
    if pieces.len() == 0 {
        Seq::empty()
    } else {
        row_text(pieces.drop_last()) + pieces.last()
    }
}

/// The rows of pieces joined, each followed by a newline.
pub open spec fn grid_text(rows: Seq<Seq<Seq<char>>>) -> Seq<char>
    decreases rows.len(),
{
    if rows.len() == 0 {
        Seq::empty()
    } else {
        grid_text(rows.drop_last()) + row_text(rows.last()) + seq!['\n']
    }
}

/// Whether `pieces` holds one coloured piece for each cell of `grid`.
pub open spec fn pieces_fit(pieces: Seq<Seq<Seq<char>>>, grid: Seq<Seq<AsciiPixel>>) -> bool {
    &&& pieces.len() == grid.len()
    &&& forall|r: int| 0 <= r < grid.len() ==> #[trigger] pieces[r].len() == grid[r].len()
    &&& forall|r: int, c: int|
        0 <= r < grid.len() && 0 <= c < grid[r].len() ==> colored_form(
            #[trigger] pieces[r][c],
            grid[r][c].character,
        )
}

/// The terminal text of a grid: each cell's character in its colour, each row
/// ended by a newline.
pub fn render_text(grid: &Vec<Vec<AsciiPixel>>) -> (text: String)
    ensures
        exists|pieces: Seq<Seq<Seq<char>>>|
            pieces_fit(pieces, grid_view(grid@)) && text@ == grid_text(pieces),
{
    let ghost g = grid_view(grid@);
    let ghost mut rows: Seq<Seq<Seq<char>>> = Seq::empty();
    let mut text = String::new();
    let newline = String::from_str("\n");
    proof {
        reveal_strlit("\n");
        assert(newline@ =~= seq!['\n']);
    }
    let mut y: usize = 0;
    while y < grid.len()
        invariant
            g == grid_view(grid@),
            newline@ == seq!['\n'],
            y <= grid@.len(),
            pieces_fit(rows, g.take(y as int)),
            text@ == grid_text(rows),
        decreases grid@.len() - y,
    {
        let row = &grid[y];
        let ghost mut cur: Seq<Seq<char>> = Seq::empty();
        let ghost before = text@;
        let mut x: usize = 0;
        while x < row.len()
            invariant
                x <= row@.len(),
                cur.len() == x,
                forall|c: int| 0 <= c < x ==> colored_form(#[trigger] cur[c], row@[c].character),
                text@ == before + row_text(cur),
            decreases row@.len() - x,
        {
            let cell = row[x];
            let piece = colorize(cell.character, cell.color.0, cell.color.1, cell.color.2);
            text.append(piece.as_str());
            proof {
                let next = cur.push(piece@);
                assert(next.drop_last() =~= cur);
                assert(text@ =~= before + row_text(next));
                cur = next;
            }
            x = x + 1;
        }
        text.append(newline.as_str());
        proof {
            let next = rows.push(cur);
            assert(next.drop_last() =~= rows);
            assert(text@ =~= grid_text(next));
            assert(g[y as int] == row@);
            assert(pieces_fit(next, g.take(y + 1))) by {
                assert forall|r: int, c: int|
                    0 <= r < y + 1 && 0 <= c < g.take(y + 1)[r].len() implies colored_form(
                    #[trigger] next[r][c],
                    g.take(y + 1)[r][c].character,
                ) by {
                    if r < y {
                        assert(next[r] == rows[r]);
                        assert(g.take(y as int)[r] == g.take(y + 1)[r]);
                    }
                }
            }
            rows = next;
        }
        y = y + 1;
    }
    assert(g.take(y as int) =~= g);
    text
}

/// Samples a source image into a grid and its terminal text.
pub fn process_image(src: &SourceImage, target_width: u32, density: DensityPreset) -> (r: Result<
    (String, Vec<Vec<AsciiPixel>>),
    ProcessError,
>)
    requires
        src.wf(),
    ensures
        match sample_error(src.width as int, src.height as int, target_width as int) {
            Some(e) => r == Err::<(String, Vec<Vec<AsciiPixel>>), ProcessError>(e),
            None => r.is_ok() && grid_view(r->Ok_0.1@) == sampled(
                *src,
                target_width as int,
                density,
            ),
        },
        r matches Ok((text, grid)) ==> exists|pieces: Seq<Seq<Seq<char>>>|
            pieces_fit(pieces, grid_view(grid@)) && text@ == grid_text(pieces),
{
    match sample_image(src, target_width, density) {
        Ok(grid) => {
            let text = render_text(&grid);
            Ok((text, grid))
        },
        Err(e) => Err(e),
    }
}

/// A sampled grid has as many rows as the derived height and as many
/// columns as the requested width.
pub proof fn lemma_grid_shape(px: Seq<u8>, tw: int, th: int, chars: Seq<char>)
    requires
        tw >= 0,
        th >= 0,
    ensures
        grid_of(px, tw, th, chars).len() == th,
        forall|r: int| 0 <= r < th ==> #[trigger] grid_of(px, tw, th, chars)[r].len() == tw,
{
}

/// Where every pixel of the sampled buffer is black, every cell holds the
/// palette's first character in black.
pub proof fn lemma_black_pixels_blank_grid(px: Seq<u8>, tw: int, th: int, d: DensityPreset)
    requires
        tw >= 0,
        th >= 0,
        px.len() == tw * th * 4,
        forall|i: int| 0 <= i < px.len() && i % 4 != 3 ==> #[trigger] px[i] == 0,
    ensures
        forall|r: int, c: int|
            0 <= r < th && 0 <= c < tw ==> #[trigger] grid_of(px, tw, th, preset_chars(d))[r][c]
                == (AsciiPixel { character: preset_chars(d)[0], color: (0u8, 0u8, 0u8) }),
{
    assert forall|r: int, c: int| 0 <= r < th && 0 <= c < tw implies #[trigger] grid_of(
        px,
        tw,
        th,
        preset_chars(d),
    )[r][c] == (AsciiPixel { character: preset_chars(d)[0], color: (0u8, 0u8, 0u8) }) by {
        let i = r * tw + c;
        assert(0 <= i && 4 * i + 3 < px.len()) by (nonlinear_arith)
            requires
                i == r * tw + c,
                0 <= r < th,
                0 <= c < tw,
                px.len() == tw * th * 4,
        ;
        assert((4 * i) % 4 == 0 && (4 * i + 1) % 4 == 1 && (4 * i + 2) % 4 == 2) by (nonlinear_arith)
            requires
                i >= 0,
        ;
        assert(px[4 * i] == 0 && px[4 * i + 1] == 0 && px[4 * i + 2] == 0);
        crate::density::lemma_preset_shape(d);
        lemma_index_in_range(0, preset_chars(d).len() as int);
        assert(luma(px[4 * i], px[4 * i + 1], px[4 * i + 2]) == 0);
    }
}

} // verus!
