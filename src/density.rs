use vstd::prelude::*;
use vstd::string::StringExecFns;

verus! {

/// A named character palette, ordered from the blank character to the densest.
#[derive(Clone, Copy, Debug, PartialEq, Eq, Structural)]
pub enum DensityPreset {
    Low,
    Medium,
    High,
    Ultra,
    Extreme,
}

/// The palette shared by the three finest presets.
pub open spec fn fine_palette() -> Seq<char> {
    seq![' ', '.', '\'', '`', '^', '"', ',', ':', ';', 'I', 'l', '!', 'i', '>', '<', '~', '+',
        '_', '-', '?', ']', '[', '}', '{', '1', ')', '(', '|', '\\', '/', 't', 'f', 'j', 'r', 'x',
        'n', 'u', 'v', 'c', 'z', 'X', 'Y', 'U', 'J', 'C', 'L', 'Q', '0', 'O', 'Z', 'm', 'w', 'q',
        'p', 'd', 'b', 'k', 'h', 'a', 'o', '*', '#', 'M', 'W', '&', '8', '%', 'B', '@']
}

/// The characters of a preset, from blank to dense.
pub open spec fn preset_chars(p: DensityPreset) -> Seq<char> {
    match p {
        DensityPreset::Low => seq![' ', '.', ':', '+', '#', '@'],
        DensityPreset::Medium => seq![' ', '.', ':', '-', '=', '+', '*', '#', '%', '@'],
        DensityPreset::High => fine_palette(),
        DensityPreset::Ultra => fine_palette().push('$'),
        DensityPreset::Extreme => fine_palette() + seq!['$', 'A', 'G', 'H', 'K', 'P', 'R', 'S',
            'T', 'V', 'g', 's', 'y', 'e', 'F', 'D', 'N', '2', '3', '4', '5', '6', '7', '9', 'E'],
    }
}

/// The preset that a lower-case name denotes, if any.
pub open spec fn preset_named(s: Seq<char>) -> Option<DensityPreset> {
    if s == seq!['l', 'o', 'w'] {
        Some(DensityPreset::Low)
    } else if s == seq!['m', 'e', 'd', 'i', 'u', 'm'] {
        Some(DensityPreset::Medium)
    } else if s == seq!['h', 'i', 'g', 'h'] {
        Some(DensityPreset::High)
    } else if s == seq!['u', 'l', 't', 'r', 'a'] {
        Some(DensityPreset::Ultra)
    } else if s == seq!['e', 'x', 't', 'r', 'e', 'm', 'e'] {
        Some(DensityPreset::Extreme)
    } else {
        None
    }
}

/// The blank character: the first of every palette.
pub open spec fn blank_char() -> char {
    ' '
}

impl DensityPreset {
    /// The preset's palette.
    pub fn get_chars(&self) -> (r: Vec<char>)
        ensures
            r@ == preset_chars(*self),
    {
        let mut r: Vec<char> = vec![' ', '.', '\'', '`', '^', '"', ',', ':', ';', 'I', 'l', '!',
            'i', '>', '<', '~', '+', '_', '-', '?', ']', '[', '}', '{', '1', ')', '(', '|', '\\',
            '/', 't', 'f', 'j', 'r', 'x', 'n', 'u', 'v', 'c', 'z', 'X', 'Y', 'U', 'J', 'C', 'L',
            'Q', '0', 'O', 'Z', 'm', 'w', 'q', 'p', 'd', 'b', 'k', 'h', 'a', 'o', '*', '#', 'M',
            'W', '&', '8', '%', 'B', '@'];
        match self {
            DensityPreset::Low => vec![' ', '.', ':', '+', '#', '@'],
            DensityPreset::Medium => vec![' ', '.', ':', '-', '=', '+', '*', '#', '%', '@'],
            DensityPreset::High => r,
            DensityPreset::Ultra => {
                r.push('$');
                r
            },
            DensityPreset::Extreme => {
                let mut tail: Vec<char> = vec!['$', 'A', 'G', 'H', 'K', 'P', 'R', 'S', 'T', 'V',
                    'g', 's', 'y', 'e', 'F', 'D', 'N', '2', '3', '4', '5', '6', '7', '9', 'E'];
                r.append(&mut tail);
                r
            },
        }
    }

    /// The width in characters used when the caller gives none.
    pub fn get_default_width(&self) -> (w: u32)
        ensures
            w == default_width(*self),
    {
        match self {
            DensityPreset::Low => 40,
            DensityPreset::Medium => 80,
            DensityPreset::High => 120,
            DensityPreset::Ultra => 150,
            DensityPreset::Extreme => 200,
        }
    }
}

/// The default width of each preset, in characters.
pub open spec fn default_width(p: DensityPreset) -> u32 {
    match p {
        DensityPreset::Low => 40,
        DensityPreset::Medium => 80,
        DensityPreset::High => 120,
        DensityPreset::Ultra => 150,
        DensityPreset::Extreme => 200,
    }
}

/// The width the command line gives when none is asked for.
pub const DEFAULT_WIDTH: u32 = 80;

/// The width to draw at: a preset's own default replaces the command line's
/// default width, except for the medium preset whose default it is.
pub open spec fn effective_width_of(width: u32, d: DensityPreset) -> u32 {
    if width == DEFAULT_WIDTH && d != DensityPreset::Medium {
        default_width(d)
    } else {
        width
    }
}

/// The width to draw at, from the requested width and the preset.
pub fn effective_width(width: u32, d: DensityPreset) -> (w: u32)
    ensures
        w == effective_width_of(width, d),
{
    if width == DEFAULT_WIDTH && d != DensityPreset::Medium {
        d.get_default_width()
    } else {
        width
    }
}

/// The preset's name as it appears in output file names.
pub open spec fn preset_title(d: DensityPreset) -> Seq<char> {
    match d {
        DensityPreset::Low => seq!['L', 'o', 'w'],
        DensityPreset::Medium => seq!['M', 'e', 'd', 'i', 'u', 'm'],
        DensityPreset::High => seq!['H', 'i', 'g', 'h'],
        DensityPreset::Ultra => seq!['U', 'l', 't', 'r', 'a'],
        DensityPreset::Extreme => seq!['E', 'x', 't', 'r', 'e', 'm', 'e'],
    }
}

impl DensityPreset {
    /// The preset's name as it appears in output file names.
    pub fn title(&self) -> (t: String)
        ensures
            t@ == preset_title(*self),
    {
        proof {
            reveal_strlit("Low");
            reveal_strlit("Medium");
            reveal_strlit("High");
            reveal_strlit("Ultra");
            reveal_strlit("Extreme");
        }
        let t = match self {
            DensityPreset::Low => String::from_str("Low"),
            DensityPreset::Medium => String::from_str("Medium"),
            DensityPreset::High => String::from_str("High"),
            DensityPreset::Ultra => String::from_str("Ultra"),
            DensityPreset::Extreme => String::from_str("Extreme"),
        };
        assert(t@ =~= preset_title(*self));
        t
    }
}

/// The file name the art of an image is saved under:
/// `<stem>_<Preset>_ascii.png`.
pub fn output_file_name(stem: &str, d: DensityPreset) -> (name: String)
    ensures
        name@ == stem@ + seq!['_'] + preset_title(d) + seq!['_', 'a', 's', 'c', 'i', 'i', '.', 'p', 'n', 'g'],
{
    let mut name = String::from_str(stem);
    let sep = String::from_str("_");
    let tail = String::from_str("_ascii.png");
    proof {
        reveal_strlit("_");
        reveal_strlit("_ascii.png");
        assert(sep@ =~= seq!['_']);
        assert(tail@ =~= seq!['_', 'a', 's', 'c', 'i', 'i', '.', 'p', 'n', 'g']);
    }
    let title = d.title();
    name.append(sep.as_str());
    name.append(title.as_str());
    name.append(tail.as_str());
    name
}

/// A density name that is not one of the five presets.
#[derive(Clone, Debug, PartialEq, Eq)]
pub struct ParseDensityError {
    /// The name as the caller gave it.
    pub input: String,
}

/// What `str::to_lowercase` returns for a string.
pub uninterp spec fn lower_of(s: Seq<char>) -> Seq<char>;

/// Relies on `str::to_lowercase`: the result depends on the characters alone.
#[verifier::external_body]
fn lowercase(s: &str) -> (r: String)
    ensures
        r@ == lower_of(s@),
{
    s.to_lowercase()
}

/// Reads an already lower-cased preset name.
pub fn parse_lowered(s: &str) -> (r: Option<DensityPreset>)
    ensures
        r == preset_named(s@),
{
    let t = String::from_str(s);
    let low = String::from_str("low");
    let medium = String::from_str("medium");
    let high = String::from_str("high");
    let ultra = String::from_str("ultra");
    let extreme = String::from_str("extreme");
    proof {
        reveal_strlit("low");
        reveal_strlit("medium");
        reveal_strlit("high");
        reveal_strlit("ultra");
        reveal_strlit("extreme");
        assert(low@ =~= seq!['l', 'o', 'w']);
        assert(medium@ =~= seq!['m', 'e', 'd', 'i', 'u', 'm']);
        assert(high@ =~= seq!['h', 'i', 'g', 'h']);
        assert(ultra@ =~= seq!['u', 'l', 't', 'r', 'a']);
        assert(extreme@ =~= seq!['e', 'x', 't', 'r', 'e', 'm', 'e']);
    }
    if t == low {
        Some(DensityPreset::Low)
    } else if t == medium {
        Some(DensityPreset::Medium)
    } else if t == high {
        Some(DensityPreset::High)
    } else if t == ultra {
        Some(DensityPreset::Ultra)
    } else if t == extreme {
        Some(DensityPreset::Extreme)
    } else {
        None
    }
}

/// Reads a preset name, in any case.
pub fn parse_density(s: &str) -> (r: Result<DensityPreset, ParseDensityError>)
    ensures
        match preset_named(lower_of(s@)) {
            Some(p) => r == Ok::<DensityPreset, ParseDensityError>(p),
            None => r.is_err() && r->Err_0.input@ == s@,
        },
{
    let lowered = lowercase(s);
    match parse_lowered(lowered.as_str()) {
        Some(p) => Ok(p),
        None => Err(ParseDensityError { input: String::from_str(s) }),
    }
}

/// Every preset has at least two characters and starts with the blank.
pub proof fn lemma_preset_shape(p: DensityPreset)
    ensures
        preset_chars(p).len() >= 2,
        preset_chars(p)[0] == blank_char(),
{
}

} // verus!
