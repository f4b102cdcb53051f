use vstd::prelude::*;

verus! {

/// Width of one glyph cell in pixels.
pub const GLYPH_WIDTH: u32 = 8;

/// Height of one glyph cell in pixels.
pub const GLYPH_HEIGHT: u32 = 12;

// Each glyph is a 12x8 bitmap packed into the low 96 bits of a `u128`.
// Read the binary literal left to right: one group of eight bits per row,
// top row first, leftmost pixel first. A set bit is an "on" pixel.
pub const SPACE: u128 = 0b00000000_00000000_00000000_00000000_00000000_00000000_00000000_00000000_00000000_00000000_00000000_00000000;

pub const DOT: u128 = 0b00000000_00000000_00000000_00000000_00000000_00000000_00000000_00000000_00000000_00011000_00011000_00000000;

pub const COLON: u128 = 0b00000000_00000000_00000000_00011000_00011000_00000000_00000000_00011000_00011000_00000000_00000000_00000000;

pub const DASH: u128 = 0b00000000_00000000_00000000_00000000_00000000_00000000_01111110_00000000_00000000_00000000_00000000_00000000;

pub const EQUALS: u128 = 0b00000000_00000000_00000000_00000000_01111110_00000000_00000000_01111110_00000000_00000000_00000000_00000000;

pub const PLUS: u128 = 0b00000000_00000000_00000000_00011000_00011000_01111110_01111110_00011000_00011000_00000000_00000000_00000000;

pub const ASTERISK: u128 = 0b00000000_00000000_00100100_00011000_01111110_00011000_00100100_00000000_00000000_00000000_00000000_00000000;

pub const HASH: u128 = 0b00000000_00101000_00101000_01111110_00101000_00101000_01111110_00101000_00101000_00000000_00000000_00000000;

pub const PERCENT: u128 = 0b00000000_01100010_01100100_00001000_00010000_00100000_01000000_01001100_00001100_00000000_00000000_00000000;

pub const AT: u128 = 0b00111100_01000010_01011010_01100110_01100110_01100110_01011100_01000000_00111100_00000000_00000000_00000000;

pub const CARET: u128 = 0b00000000_00011000_00100100_01000010_00000000_00000000_00000000_00000000_00000000_00000000_00000000_00000000;

pub const GREATER: u128 = 0b00000000_00000000_00100000_00010000_00001000_00000100_00001000_00010000_00100000_00000000_00000000_00000000;

pub const LESS: u128 = 0b00000000_00000000_00000100_00001000_00010000_00100000_00010000_00001000_00000100_00000000_00000000_00000000;

pub const TILDE: u128 = 0b00000000_00000000_00000000_00000000_00110010_01001100_00000000_00000000_00000000_00000000_00000000_00000000;

pub const UNDERSCORE: u128 = 0b00000000_00000000_00000000_00000000_00000000_00000000_00000000_00000000_00000000_00000000_00000000_11111111;

pub const QUESTION: u128 = 0b00000000_00111100_01000010_00000100_00001000_00010000_00010000_00000000_00010000_00000000_00000000_00000000;

pub const BRACKET_RIGHT: u128 = 0b01110000_00010000_00010000_00010000_00010000_00010000_00010000_00010000_00010000_01110000_00000000_00000000;

pub const BRACKET_LEFT: u128 = 0b00011100_00010000_00010000_00010000_00010000_00010000_00010000_00010000_00010000_00011100_00000000_00000000;

pub const PAREN_RIGHT: u128 = 0b00100000_00010000_00001000_00001000_00001000_00001000_00001000_00001000_00010000_00100000_00000000_00000000;

pub const PAREN_LEFT: u128 = 0b00001000_00010000_00100000_00100000_00100000_00100000_00100000_00100000_00010000_00001000_00000000_00000000;

pub const PIPE_PATTERN: u128 = 0b00011000_00011000_00011000_00011000_00011000_00011000_00011000_00011000_00011000_00011000_00000000_00000000;

pub const BACKSLASH: u128 = 0b01000000_01000000_00100000_00100000_00010000_00010000_00001000_00001000_00000100_00000100_00000000_00000000;

pub const SLASH: u128 = 0b00000100_00000100_00001000_00001000_00010000_00010000_00100000_00100000_01000000_01000000_00000000_00000000;

pub const ZERO: u128 = 0b00111100_01000010_01000110_01001010_01010010_01100010_01000010_00111100_00000000_00000000_00000000_00000000;

pub const SMALL_BLOCK: u128 = 0b00000000_00000000_00000000_00000000_00111100_00111100_00111100_00111100_00000000_00000000_00000000_00000000;

pub const MEDIUM_BLOCK: u128 = 0b00000000_00000000_01111110_01111110_01111110_01111110_01111110_01111110_00000000_00000000_00000000_00000000;

pub const LARGE_BLOCK: u128 = 0b00000000_11111111_11111111_11111111_11111111_11111111_11111111_11111111_11111111_11111111_00000000_00000000;

/// The glyph bitmap that a character is drawn with. Many characters share one
/// bitmap; characters outside the table are drawn blank.
pub open spec fn glyph_of(c: char) -> u128 {
    match c {
        ' ' => SPACE,
        '.' | '\'' | '`' | ',' | 'i' => DOT,
        ':' | '"' | ';' => COLON,
        '-' => DASH,
        '=' => EQUALS,
        '+' => PLUS,
        '*' => ASTERISK,
        '#' => HASH,
        '%' => PERCENT,
        '@' => AT,
        '^' => CARET,
        'I' | 'l' | '!' | '1' | '|' => PIPE_PATTERN,
        '>' => GREATER,
        '<' => LESS,
        '~' => TILDE,
        '_' => UNDERSCORE,
        '?' => QUESTION,
        ']' | '}' => BRACKET_RIGHT,
        '[' | '{' => BRACKET_LEFT,
        ')' => PAREN_RIGHT,
        '(' => PAREN_LEFT,
        '\\' => BACKSLASH,
        '/' => SLASH,
        '0' => ZERO,
        't' | 'f' | 'j' | 'r' | 'x' | 'n' | 'u' | 'v' | 'c' | 'z' => SMALL_BLOCK,
        'm' | 'w' | 'q' | 'p' | 'd' | 'b' | 'k' | 'h' | 'a' | 'o' => SMALL_BLOCK,
        'X' | 'Y' | 'U' | 'J' | 'C' | 'L' | 'Q' | 'O' | 'Z' => MEDIUM_BLOCK,
        'g' | 's' | 'y' | 'e' | 'F' | 'D' | 'N' => MEDIUM_BLOCK,
        '2' | '3' | '4' | '5' | '6' | '7' | '9' | 'E' => MEDIUM_BLOCK,
        'M' | 'W' | 'B' | 'A' | 'G' | 'H' | 'K' | 'P' | 'R' | 'S' | 'T' | 'V' => LARGE_BLOCK,
        '&' | '8' | '$' => LARGE_BLOCK,
        _ => SPACE,
    }
}

/// Whether pixel `(px, py)` of a glyph cell is "on" in bitmap `mask`.
pub open spec fn glyph_on(mask: u128, px: int, py: int) -> bool {
    (mask >> ((95 - (py * 8 + px)) as u128)) & 1u128 == 1u128
}

/// Looks up the bitmap that `ch` is drawn with.
pub fn get_char_pattern(ch: char) -> (mask: u128)
    ensures
        mask == glyph_of(ch),
{
    match ch {
        ' ' => SPACE,
        '.' | '\'' | '`' | ',' | 'i' => DOT,
        ':' | '"' | ';' => COLON,
        '-' => DASH,
        '=' => EQUALS,
        '+' => PLUS,
        '*' => ASTERISK,
        '#' => HASH,
        '%' => PERCENT,
        '@' => AT,
        '^' => CARET,
        'I' | 'l' | '!' | '1' | '|' => PIPE_PATTERN,
        '>' => GREATER,
        '<' => LESS,
        '~' => TILDE,
        '_' => UNDERSCORE,
        '?' => QUESTION,
        ']' | '}' => BRACKET_RIGHT,
        '[' | '{' => BRACKET_LEFT,
        ')' => PAREN_RIGHT,
        '(' => PAREN_LEFT,
        '\\' => BACKSLASH,
        '/' => SLASH,
        '0' => ZERO,
        't' | 'f' | 'j' | 'r' | 'x' | 'n' | 'u' | 'v' | 'c' | 'z' => SMALL_BLOCK,
        'm' | 'w' | 'q' | 'p' | 'd' | 'b' | 'k' | 'h' | 'a' | 'o' => SMALL_BLOCK,
        'X' | 'Y' | 'U' | 'J' | 'C' | 'L' | 'Q' | 'O' | 'Z' => MEDIUM_BLOCK,
        'g' | 's' | 'y' | 'e' | 'F' | 'D' | 'N' => MEDIUM_BLOCK,
        '2' | '3' | '4' | '5' | '6' | '7' | '9' | 'E' => MEDIUM_BLOCK,
        'M' | 'W' | 'B' | 'A' | 'G' | 'H' | 'K' | 'P' | 'R' | 'S' | 'T' | 'V' => LARGE_BLOCK,
        '&' | '8' | '$' => LARGE_BLOCK,
        _ => SPACE,
    }
}

/// Whether pixel `(px, py)` of a glyph cell is "on" in bitmap `mask`.
pub fn pixel_on(mask: u128, px: u32, py: u32) -> (on: bool)
    requires
        px < GLYPH_WIDTH,
        py < GLYPH_HEIGHT,
    ensures
        on == glyph_on(mask, px as int, py as int),
{
    let shift: u128 = (95 - (py * 8 + px)) as u128;
    (mask >> shift) & 1u128 == 1u128
}

/// The blank bitmap has no pixel on.
pub proof fn lemma_space_is_blank(px: int, py: int)
    requires
        0 <= px < 8,
        0 <= py < 12,
    ensures
        !glyph_on(SPACE, px, py),
{
    let s = (95 - (py * 8 + px)) as u128;
    assert((0u128 >> s) & 1u128 == 0u128) by (bit_vector);
}

} // verus!
