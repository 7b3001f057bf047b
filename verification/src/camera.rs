//! The camera marker and the strategies for turning its image into
//! characters.
use vstd::prelude::*;

verus! {

/// The number that stands for 1.0 in `LuminanceConfig::luminance_scale`: the
/// scale is given in thousandths.
pub const SCALE_UNIT: u32 = 1000;

/// The scale that luminance is multiplied by where none is configured: ten.
pub const LUMINANCE_SCALE_DEFAULT: u32 = 10000;

/// Marks a camera whose rendered image is sent, frame by frame, to a widget
/// on the same camera.
#[derive(Clone, Copy, Debug)]
pub struct RatatuiCamera {
    /// Width and height of the image that the camera renders to.
    pub dimensions: (u32, u32),
    /// If true, the image is resized to match the terminal, at startup and
    /// whenever the terminal is resized.
    pub autoresize: bool,
    /// If true, the camera's widget is drawn to the full terminal each
    /// frame; else the application draws it.
    pub autoprint: bool,
}

impl Default for RatatuiCamera {
    fn default() -> (camera: Self)
        ensures
            camera == (RatatuiCamera {
                dimensions: (256, 256),
                autoresize: false,
                autoprint: false,
            }),
    {
        RatatuiCamera { dimensions: (256, 256), autoresize: false, autoprint: false }
    }
}

impl RatatuiCamera {
    /// A camera that renders to an image of the given dimensions.
    pub fn new(dimensions: (u32, u32)) -> (camera: Self)
        ensures
            camera == (RatatuiCamera { dimensions, autoresize: false, autoprint: false }),
    {
        RatatuiCamera { dimensions, autoresize: false, autoprint: false }
    }

    /// A camera whose image follows the terminal's size.
    pub fn autoresize() -> (camera: Self)
        ensures
            camera == (RatatuiCamera {
                dimensions: (256, 256),
                autoresize: true,
                autoprint: false,
            }),
    {
        RatatuiCamera { dimensions: (256, 256), autoresize: true, autoprint: false }
    }

    /// The same camera with other dimensions.
    pub fn with_dimensions(self, dimensions: (u32, u32)) -> (camera: Self)
        ensures
            camera == (RatatuiCamera { dimensions, ..self }),
    {
        RatatuiCamera { dimensions, autoresize: self.autoresize, autoprint: self.autoprint }
    }

    /// The same camera with `autoresize` set as given.
    pub fn with_autoresize(self, autoresize: bool) -> (camera: Self)
        ensures
            camera == (RatatuiCamera { autoresize, ..self }),
    {
        RatatuiCamera { dimensions: self.dimensions, autoresize, autoprint: self.autoprint }
    }

    /// The same camera with `autoprint` set as given.
    pub fn with_autoprint(self, autoprint: bool) -> (camera: Self)
        ensures
            camera == (RatatuiCamera { autoprint, ..self }),
    {
        RatatuiCamera { dimensions: self.dimensions, autoresize: self.autoresize, autoprint }
    }
}

/// The dimensions of a terminal of `columns` by `rows` cells, as the
/// camera's conversion receives them: the columns and the rows as they are.
pub fn terminal_dimensions(columns: u16, rows: u16) -> (dimensions: (u32, u32))
    ensures
        dimensions.0 == columns,
        dimensions.1 == rows,
{
    (columns as u32, rows as u32)
}

/// The conversion from terminal dimensions to image dimensions that is used
/// where the camera has none of its own: two pixels per character cell each
/// way, as far as 32 bits reach.
pub fn double_dimensions(dimensions: (u32, u32)) -> (doubled: (u32, u32))
    ensures
        doubled.0 as int == if dimensions.0 * 2 <= u32::MAX {
            dimensions.0 * 2
        } else {
            u32::MAX as int
        },
        doubled.1 as int == if dimensions.1 * 2 <= u32::MAX {
            dimensions.1 * 2
        } else {
            u32::MAX as int
        },
{
    let width: u32 = if dimensions.0 <= u32::MAX / 2 {
        dimensions.0 * 2
    } else {
        u32::MAX
    };
    let height: u32 = if dimensions.1 <= u32::MAX / 2 {
        dimensions.1 * 2
    } else {
        u32::MAX
    };
    (width, height)
}

/// How the camera's image is turned into characters.
#[derive(Clone, Debug)]
pub enum RatatuiCameraStrategy {
    /// Draw with the upper half block: its foreground and background colour
    /// show two pixels per cell.
    HalfBlocks,
    /// Pick, by each cell's luminance, a character from a list sorted by
    /// increasing opacity.
    Luminance(LuminanceConfig),
}

impl Default for RatatuiCameraStrategy {
    fn default() -> (strategy: Self)
        ensures
            strategy is HalfBlocks,
    {
        RatatuiCameraStrategy::HalfBlocks
    }
}

impl RatatuiCameraStrategy {
    /// Luminance strategy with braille characters.
    pub fn luminance_braille() -> (strategy: Self)
        ensures
            strategy is Luminance,
            strategy->Luminance_0.luminance_characters@ == braille_characters(),
            strategy->Luminance_0.luminance_scale == LUMINANCE_SCALE_DEFAULT,
    {
        RatatuiCameraStrategy::Luminance(
            LuminanceConfig {
                luminance_characters: LuminanceConfig::luminance_characters_braille(),
                luminance_scale: LUMINANCE_SCALE_DEFAULT,
            },
        )
    }

    /// Luminance strategy with miscellaneous characters.
    pub fn luminance_misc() -> (strategy: Self)
        ensures
            strategy is Luminance,
            strategy->Luminance_0.luminance_characters@ == misc_characters(),
            strategy->Luminance_0.luminance_scale == LUMINANCE_SCALE_DEFAULT,
    {
        RatatuiCameraStrategy::Luminance(
            LuminanceConfig {
                luminance_characters: LuminanceConfig::luminance_characters_misc(),
                luminance_scale: LUMINANCE_SCALE_DEFAULT,
            },
        )
    }

    /// Luminance strategy with block characters.
    pub fn luminance_shading() -> (strategy: Self)
        ensures
            strategy is Luminance,
            strategy->Luminance_0.luminance_characters@ == shading_characters(),
            strategy->Luminance_0.luminance_scale == LUMINANCE_SCALE_DEFAULT,
    {
        RatatuiCameraStrategy::Luminance(
            LuminanceConfig {
                luminance_characters: LuminanceConfig::luminance_characters_shading(),
                luminance_scale: LUMINANCE_SCALE_DEFAULT,
            },
        )
    }
}

/// Braille characters in increasing order of opacity.
pub open spec fn braille_characters() -> Seq<char> {
    seq![
        ' ',
        '\u{2802}',
        '\u{2812}',
        '\u{2816}',
        '\u{2836}',
        '\u{2837}',
        '\u{283f}',
        '\u{287f}',
        '\u{28ff}',
    ]
}

/// Miscellaneous characters in increasing order of opacity.
pub open spec fn misc_characters() -> Seq<char> {
    seq![' ', '.', ':', '+', '=', '!', '*', '?', '#', '%', '&', '@']
}

/// Block characters in increasing order of opacity.
pub open spec fn shading_characters() -> Seq<char> {
    seq![' ', '\u{2591}', '\u{2592}', '\u{2593}', '\u{2588}']
}

/// Configuration of the luminance strategy.
#[derive(Clone, Debug)]
pub struct LuminanceConfig {
    /// The characters to draw with, in increasing order of opacity: a more
    /// opaque character fills more of its cell and so looks brighter.
    pub luminance_characters: Vec<char>,
    /// The number, in thousandths (`SCALE_UNIT`), that each luminance is
    /// multiplied by before it selects a character. Most scenes do not fill
    /// the range of luminance from 0 to 1.
    pub luminance_scale: u32,
}

impl LuminanceConfig {
    /// Braille characters in increasing order of opacity.
    pub fn luminance_characters_braille() -> (characters: Vec<char>)
        ensures
            characters@ == braille_characters(),
    {
        let mut characters: Vec<char> = Vec::new();
        characters.push(' ');
        characters.push('\u{2802}');
        characters.push('\u{2812}');
        characters.push('\u{2816}');
        characters.push('\u{2836}');
        characters.push('\u{2837}');
        characters.push('\u{283f}');
        characters.push('\u{287f}');
        characters.push('\u{28ff}');
        assert(characters@ =~= braille_characters());
        characters
    }

    /// Miscellaneous characters in increasing order of opacity.
    pub fn luminance_characters_misc() -> (characters: Vec<char>)
        ensures
            characters@ == misc_characters(),
    {
        let mut characters: Vec<char> = Vec::new();
        characters.push(' ');
        characters.push('.');
        characters.push(':');
        characters.push('+');
        characters.push('=');
        characters.push('!');
        characters.push('*');
        characters.push('?');
        characters.push('#');
        characters.push('%');
        characters.push('&');
        characters.push('@');
        assert(characters@ =~= misc_characters());
        characters
    }

    /// Block characters in increasing order of opacity.
    pub fn luminance_characters_shading() -> (characters: Vec<char>)
        ensures
            characters@ == shading_characters(),
    {
        let mut characters: Vec<char> = Vec::new();
        characters.push(' ');
        characters.push('\u{2591}');
        characters.push('\u{2592}');
        characters.push('\u{2593}');
        characters.push('\u{2588}');
        assert(characters@ =~= shading_characters());
        characters
    }
}

impl Default for LuminanceConfig {
    fn default() -> (config: Self)
        ensures
            config.luminance_characters@ == braille_characters(),
            config.luminance_scale == LUMINANCE_SCALE_DEFAULT,
    {
        LuminanceConfig {
            luminance_characters: LuminanceConfig::luminance_characters_braille(),
            luminance_scale: LUMINANCE_SCALE_DEFAULT,
        }
    }
}

} // verus!
