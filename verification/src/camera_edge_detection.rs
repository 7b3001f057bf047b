//! Configuration of the edge detection pass and of how detected edges are
//! drawn.
use vstd::prelude::*;

verus! {

/// The number that stands for 1.0 in `thickness` and in the thresholds of
/// `RatatuiCameraEdgeDetection`: they are given in thousandths.
pub const EDGE_UNIT: u32 = 1000;

/// When set on a camera, an edge detection step runs in the render pipeline:
/// a sobel filter over the depth, normal and colour textures gives a texture
/// of detected edges and their directions. Where an edge is detected, the
/// widget draws a special character, and optionally an override colour.
///
/// Thickness and thresholds are in thousandths (`EDGE_UNIT`).
#[derive(Clone, Copy)]
pub struct RatatuiCameraEdgeDetection {
    /// Width of the range used for detecting edges: a higher value means a
    /// wider edge.
    pub thickness: u32,
    /// Enable using the colour texture to detect edges.
    pub color_enabled: bool,
    /// Edge severity required for an edge in the colour texture.
    pub color_threshold: u32,
    /// Enable using the depth texture to detect edges.
    pub depth_enabled: bool,
    /// Edge severity required for an edge in the depth texture.
    pub depth_threshold: u32,
    /// Enable using the normal texture to detect edges.
    pub normal_enabled: bool,
    /// Edge severity required for an edge in the normal texture.
    pub normal_threshold: u32,
    /// The characters used for drawing edges.
    pub edge_characters: EdgeCharacters,
    /// A colour that replaces the rendered colour where an edge is detected.
    pub edge_color: Option<ratatui::style::Color>,
}

impl Default for RatatuiCameraEdgeDetection {
    fn default() -> (config: Self)
        ensures
            config.thickness == 2000,
            config.color_enabled,
            config.color_threshold == 400,
            config.depth_enabled,
            config.depth_threshold == 100,
            config.normal_enabled,
            config.normal_threshold == 2500,
            config.edge_characters == EdgeCharacters::default_characters(),
            config.edge_color.is_none(),
    {
        RatatuiCameraEdgeDetection {
            thickness: 2000,
            color_enabled: true,
            color_threshold: 400,
            depth_enabled: true,
            depth_threshold: 100,
            normal_enabled: true,
            normal_threshold: 2500,
            edge_characters: EdgeCharacters::default(),
            edge_color: None,
        }
    }
}

/// How detected edges are drawn as characters.
#[derive(Clone, Copy, Debug, PartialEq, Eq, Structural)]
pub enum EdgeCharacters {
    /// Every cell of a detected edge shows this character.
    Single(char),
    /// Every cell of a detected edge shows one of four characters, by the
    /// dominant direction of the edge.
    Directional { vertical: char, horizontal: char, forward_diagonal: char, backward_diagonal: char },
}

impl EdgeCharacters {
    /// The directional characters that are used where none are configured.
    pub open spec fn default_characters() -> EdgeCharacters {
        EdgeCharacters::Directional {
            vertical: '|',
            horizontal: '\u{2015}',
            forward_diagonal: '\u{27cb}',
            backward_diagonal: '\u{27cd}',
        }
    }
}

impl Default for EdgeCharacters {
    fn default() -> (characters: Self)
        ensures
            characters == EdgeCharacters::default_characters(),
    {
        EdgeCharacters::Directional {
            vertical: '|',
            horizontal: '\u{2015}',
            forward_diagonal: '\u{27cb}',
            backward_diagonal: '\u{27cd}',
        }
    }
}

} // verus!
