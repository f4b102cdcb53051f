//! Image-to-glyph pipeline: density presets, luminance sampling into a
//! character grid, and rasterization of that grid with a fixed 8x12 bitmap font.

mod density;
mod glyph;
mod raster;
mod sampler;

pub use density::{
    default_width, effective_width, effective_width_of, lemma_preset_shape, output_file_name,
    parse_density, parse_lowered, preset_chars, preset_named, preset_title, DensityPreset,
    ParseDensityError, DEFAULT_WIDTH,
};
pub use glyph::{
    get_char_pattern, glyph_of, glyph_on, lemma_space_is_blank, pixel_on, GLYPH_HEIGHT,
    GLYPH_WIDTH,
};
pub use raster::{
    check_drawable, grid_drawable, lemma_black_pixels_draw_black, lemma_blank_cells_draw_black,
    lemma_pipeline_deterministic, raster_of, raster_pixel, rasterize, try_rasterize, AsciiImage,
};
pub use sampler::{
    char_index, colored_form, derive_target_height, grid_of, grid_text, grid_view,
    lemma_black_pixels_blank_grid, lemma_grid_shape, lemma_index_in_range, luma, pieces_fit,
    process_image, render_text, row_text, sample_error, sample_grid, sample_image, sampled,
    select_char_index, target_height_of, AsciiPixel, ProcessError, SourceImage,
};
