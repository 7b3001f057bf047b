//! The luminance strategy: every cell shows one character, picked from a
//! ramp by the luminance of the cell's colour, in that colour. Where an edge
//! was detected, an edge character takes the place of the ramp's.
use vstd::prelude::*;
use crate::camera::{LuminanceConfig, SCALE_UNIT};
use crate::camera_edge_detection::{EdgeCharacters, RatatuiCameraEdgeDetection};
use crate::pixels::{resize_fits, Pixels, Rgb, Rgba, RgbaImage};
use crate::terminal::{
    buffer_cells,
    draw_grid,
    drawn,
    lemma_drawn_keeps_the_rest,
    make_rgb_color,
    rgb_color,
    CellGrid,
    CellView,
    GridView,
    Rect,
};

verus! {

/// The number that stands for a luminance of 1.0: luminance is given in
/// millionths.
pub const LUMINANCE_UNIT: u32 = 1000000;

/// The number of cell rows that an image of `height` pixel rows touches: two
/// pixel rows make one cell row, and a last single row makes one more.
pub open spec fn cell_rows(height: nat) -> nat {
    (height + 1) / 2
}

/// Half of the sum of two channel values, the sum cut off at 255.
pub open spec fn halved_sum(a: u8, b: u8) -> u8 {
    if a + b > 255 {
        127u8
    } else {
        ((a + b) / 2) as u8
    }
}

/// The colour of the cell in column `x` and cell row `row`: the two pixels
/// that the cell covers, averaged channel by channel, or the upper one alone
/// where the image ends with it.
pub open spec fn cell_color(image: Pixels, x: nat, row: nat) -> Rgb {
    let top = image.pixel(x, 2 * row);
    if 2 * row + 1 < image.height {
        let bottom = image.pixel(x, 2 * row + 1);
        Rgb {
            r: halved_sum(top.r, bottom.r),
            g: halved_sum(top.g, bottom.g),
            b: halved_sum(top.b, bottom.b),
        }
    } else {
        Rgb { r: top.r, g: top.g, b: top.b }
    }
}

/// The colours of all cells of an image, cell row after cell row.
pub open spec fn cell_colors(image: Pixels) -> Seq<Rgb> {
    Seq::new(
        image.width * cell_rows(image.height),
        |i: int| cell_color(image, (i % image.width as int) as nat, (i / image.width as int) as nat),
    )
}

/// The luminance after scaling, cut off at one, in units of
/// `1 / (LUMINANCE_UNIT * SCALE_UNIT)`.
pub open spec fn scaled_luminance(luminance: u32, scale: u32) -> nat {
    let product = luminance as nat * scale as nat;
    let one = LUMINANCE_UNIT as nat * SCALE_UNIT as nat;
    if product >= one {
        one
    } else {
        product
    }
}

/// The place in a ramp of `len` characters that a luminance selects: the
/// scaled luminance times `len`, rounded down, and at most `len - 1`.
pub open spec fn ramp_index(luminance: u32, scale: u32, len: nat) -> nat
    recommends
        len > 0,
{
    let index = scaled_luminance(luminance, scale) * len / (LUMINANCE_UNIT as nat
        * SCALE_UNIT as nat);
    if index >= len {
        (len - 1) as nat
    } else {
        index
    }
}

/// The character that a luminance selects from a ramp; a blank where the
/// ramp is empty.
pub open spec fn luminance_character(luminance: u32, characters: Seq<char>, scale: u32) -> char {
    if characters.len() == 0 {
        ' '
    } else {
        characters[ramp_index(luminance, scale, characters.len()) as int]
    }
}

/// Whether `current` is a channel value above zero that no channel of the
/// sample exceeds.
pub open spec fn is_max_sobel(sample: Rgba, current: u8) -> bool {
    &&& current > 0
    &&& current >= sample.r
    &&& current >= sample.g
    &&& current >= sample.b
    &&& current >= sample.a
}

/// The edge character for a sample of the edge image, whose four channels
/// hold the strength of a vertical, a horizontal, a forward diagonal and a
/// backward diagonal edge. With directional characters, the first direction
/// in that order whose channel is above zero and not exceeded decides; with
/// a single character, any channel above zero does. No edge gives `None`.
pub open spec fn edge_character_of(characters: EdgeCharacters, sample: Rgba) -> Option<char> {
    match characters {
        EdgeCharacters::Directional {
            vertical,
            horizontal,
            forward_diagonal,
            backward_diagonal,
        } => {
            if is_max_sobel(sample, sample.r) {
                Some(vertical)
            } else if is_max_sobel(sample, sample.g) {
                Some(horizontal)
            } else if is_max_sobel(sample, sample.b) {
                Some(forward_diagonal)
            } else if is_max_sobel(sample, sample.a) {
                Some(backward_diagonal)
            } else {
                None
            }
        },
        EdgeCharacters::Single(character) => {
            if sample.r > 0 || sample.g > 0 || sample.b > 0 || sample.a > 0 {
                Some(character)
            } else {
                None
            }
        },
    }
}

/// What the contracts see of an image that may be absent.
pub open spec fn pixels_of(image: Option<&RgbaImage>) -> Option<Pixels> {
    match image {
        Some(image) => Some(image@),
        None => None,
    }
}

/// What the contracts see of an image that may be absent.
pub open spec fn pixels_of_owned(image: Option<RgbaImage>) -> Option<Pixels> {
    match image {
        Some(image) => Some(image@),
        None => None,
    }
}

/// The configuration behind a reference that may be absent.
pub open spec fn edge_detection_of(
    edge_detection: Option<&RatatuiCameraEdgeDetection>,
) -> Option<RatatuiCameraEdgeDetection> {
    match edge_detection {
        Some(edge_detection) => Some(*edge_detection),
        None => None,
    }
}

/// The sample of the edge image that belongs to the cell in column `x` and
/// cell row `row`: the pixel under the cell's upper half, if the edge image
/// reaches there.
pub open spec fn edge_sample(sobel: Pixels, x: nat, row: nat) -> Option<Rgba> {
    if x < sobel.width && 2 * row < sobel.height {
        Some(sobel.pixel(x, 2 * row))
    } else {
        None
    }
}

/// The edge character of a cell, where there are an edge image and an edge
/// configuration and the sample shows an edge.
pub open spec fn edge_override(
    sobel: Option<Pixels>,
    edge_detection: Option<RatatuiCameraEdgeDetection>,
    x: nat,
    row: nat,
) -> Option<char> {
    match (sobel, edge_detection) {
        (Some(sobel), Some(edge_detection)) => match edge_sample(sobel, x, row) {
            Some(sample) => edge_character_of(edge_detection.edge_characters, sample),
            None => None,
        },
        _ => None,
    }
}

/// The foreground colour of a cell: the edge colour where the cell shows an
/// edge and an edge colour is configured, else the cell's own colour.
pub open spec fn cell_foreground(
    color: Rgb,
    edge: Option<char>,
    edge_detection: Option<RatatuiCameraEdgeDetection>,
) -> ratatui::style::Color {
    match (edge, edge_detection) {
        (Some(_), Some(edge_detection)) => match edge_detection.edge_color {
            Some(edge_color) => edge_color,
            None => rgb_color(color.r, color.g, color.b),
        },
        _ => rgb_color(color.r, color.g, color.b),
    }
}

/// The number of columns and rows of cells that are drawn for an image in an
/// area: the image's columns and whole cell rows, as far as the area has
/// room.
pub open spec fn drawn_extent(image_width: nat, image_height: nat, area: Rect) -> (nat, nat) {
    (
        if image_width <= area.width {
            image_width
        } else {
            area.width as nat
        },
        if image_height / 2 <= area.height {
            image_height / 2
        } else {
            area.height as nat
        },
    )
}

/// The position of the first drawn cell: the drawn cells are centred in the
/// area, with the odd cell, if any, to the right and below.
pub open spec fn drawn_origin(columns: nat, rows: nat, area: Rect) -> (int, int) {
    (area.x + (area.width - columns) / 2, area.y + (area.height - rows) / 2)
}

/// What the luminance widget draws for a scaled image, an optional scaled
/// edge image and the luminance of every cell's colour.
pub open spec fn luminance_grid(
    image: Pixels,
    sobel: Option<Pixels>,
    characters: Seq<char>,
    scale: u32,
    edge_detection: Option<RatatuiCameraEdgeDetection>,
    area: Rect,
    levels: Seq<u32>,
) -> GridView {
    let extent = drawn_extent(image.width, image.height, area);
    let origin = drawn_origin(extent.0, extent.1, area);
    let colors = cell_colors(image);
    GridView {
        x: origin.0,
        y: origin.1,
        columns: extent.0,
        rows: extent.1,
        stride: image.width,
        glyphs: Seq::new(
            colors.len(),
            |i: int|
                luminance_glyph(
                    levels[i],
                    characters,
                    scale,
                    edge_override(
                        sobel,
                        edge_detection,
                        (i % image.width as int) as nat,
                        (i / image.width as int) as nat,
                    ),
                ),
        ),
        colors: Seq::new(
            colors.len(),
            |i: int|
                cell_foreground(
                    colors[i],
                    edge_override(
                        sobel,
                        edge_detection,
                        (i % image.width as int) as nat,
                        (i / image.width as int) as nat,
                    ),
                    edge_detection,
                ),
        ),
    }
}

/// The character of a cell: the edge character where the cell shows an edge,
/// else the character that the cell's luminance selects.
pub open spec fn luminance_glyph(
    level: u32,
    characters: Seq<char>,
    scale: u32,
    edge: Option<char>,
) -> char {
    match edge {
        Some(character) => character,
        None => luminance_character(level, characters, scale),
    }
}

/// A brighter cell never selects an earlier character of the ramp, and every
/// selected place lies in the ramp.
pub proof fn lemma_ramp_index_is_monotone(darker: u32, brighter: u32, scale: u32, len: nat)
    requires
        len > 0,
        darker <= brighter,
    ensures
        ramp_index(darker, scale, len) <= ramp_index(brighter, scale, len) < len,
{
    let one = LUMINANCE_UNIT as nat * SCALE_UNIT as nat;
    let low = scaled_luminance(darker, scale);
    let high = scaled_luminance(brighter, scale);
    assert(darker as nat * scale as nat <= brighter as nat * scale as nat) by (nonlinear_arith)
        requires
            darker <= brighter,
    ;
    assert(low <= high);
    assert(low * len <= high * len) by (nonlinear_arith)
        requires
            low <= high,
    ;
    vstd::arithmetic::div_mod::lemma_div_is_ordered(
        (low * len) as int,
        (high * len) as int,
        one as int,
    );
}

/// A luminance of zero selects the first character of the ramp.
pub proof fn lemma_ramp_index_at_zero(scale: u32, len: nat)
    requires
        len > 0,
    ensures
        ramp_index(0, scale, len) == 0,
{
    assert(0 * scale as nat == 0) by (nonlinear_arith);
    assert(0 * len == 0) by (nonlinear_arith);
}

/// A luminance that the scale brings to one or above selects the last
/// character of the ramp.
pub proof fn lemma_ramp_index_at_full(luminance: u32, scale: u32, len: nat)
    requires
        len > 0,
        luminance as nat * scale as nat >= LUMINANCE_UNIT as nat * SCALE_UNIT as nat,
    ensures
        ramp_index(luminance, scale, len) == len - 1,
{
    let one = LUMINANCE_UNIT as nat * SCALE_UNIT as nat;
    assert(one == 1000000000);
    assert(one * len / one == len) by {
        vstd::arithmetic::div_mod::lemma_div_multiples_vanish(len as int, one as int);
        assert(one * len == len * one) by (nonlinear_arith);
    }
}

/// A sample with one channel above the three others selects the character
/// of that channel's direction.
pub proof fn lemma_strongest_direction_decides(
    vertical: char,
    horizontal: char,
    forward_diagonal: char,
    backward_diagonal: char,
    sample: Rgba,
)
    ensures
        sample.r > sample.g && sample.r > sample.b && sample.r > sample.a ==> edge_character_of(
            EdgeCharacters::Directional {
                vertical,
                horizontal,
                forward_diagonal,
                backward_diagonal,
            },
            sample,
        ) == Some(vertical),
        sample.g > sample.r && sample.g > sample.b && sample.g > sample.a ==> edge_character_of(
            EdgeCharacters::Directional {
                vertical,
                horizontal,
                forward_diagonal,
                backward_diagonal,
            },
            sample,
        ) == Some(horizontal),
        sample.b > sample.r && sample.b > sample.g && sample.b > sample.a ==> edge_character_of(
            EdgeCharacters::Directional {
                vertical,
                horizontal,
                forward_diagonal,
                backward_diagonal,
            },
            sample,
        ) == Some(forward_diagonal),
        sample.a > sample.r && sample.a > sample.g && sample.a > sample.b ==> edge_character_of(
            EdgeCharacters::Directional {
                vertical,
                horizontal,
                forward_diagonal,
                backward_diagonal,
            },
            sample,
        ) == Some(backward_diagonal),
{
}

/// A sample of four zeros shows no edge: the cell keeps the character that
/// its luminance selects, and its own colour.
pub proof fn lemma_no_edge_keeps_the_luminance_character(
    characters: EdgeCharacters,
    level: u32,
    ramp: Seq<char>,
    scale: u32,
    color: Rgb,
    edge_detection: Option<RatatuiCameraEdgeDetection>,
)
    ensures
        edge_character_of(characters, Rgba { r: 0, g: 0, b: 0, a: 0 }).is_none(),
        luminance_glyph(
            level,
            ramp,
            scale,
            edge_character_of(characters, Rgba { r: 0, g: 0, b: 0, a: 0 }),
        ) == luminance_character(level, ramp, scale),
        cell_foreground(
            color,
            edge_character_of(characters, Rgba { r: 0, g: 0, b: 0, a: 0 }),
            edge_detection,
        ) == rgb_color(color.r, color.g, color.b),
{
}

/// Half of the sum of two channel values, the sum cut off at 255.
fn halve_sum(a: u8, b: u8) -> (half: u8)
    ensures
        half == halved_sum(a, b),
{
    let sum: u16 = (a as u16) + (b as u16);
    if sum > 255 {
        127
    } else {
        (sum / 2) as u8
    }
}

/// Computes the colour of every cell of an image, cell row after cell row:
/// the average of the two pixels that the cell covers.
pub fn convert_image_to_rgb_triplets(image: &RgbaImage) -> (triplets: Vec<Rgb>)
    requires
        image.wf(),
    ensures
        triplets@ == cell_colors(image@),
{
    let width: u32 = image.width;
    let height: u32 = image.height;
    let rows: u32 = height / 2 + height % 2;
    let mut triplets: Vec<Rgb> = Vec::new();
    let mut row: u32 = 0;
    while row < rows
        invariant
            image.wf(),
            width == image.width,
            height == image.height,
            rows as nat == cell_rows(height as nat),
            row <= rows,
            triplets@.len() == width as nat * row as nat,
            forall|i: int|
                0 <= i < triplets@.len() ==> triplets@[i] == cell_color(
                    image@,
                    (i % width as int) as nat,
                    (i / width as int) as nat,
                ),
        decreases rows - row,
    {
        let mut x: u32 = 0;
        while x < width
            invariant
                image.wf(),
                width == image.width,
                height == image.height,
                rows as nat == cell_rows(height as nat),
                row < rows,
                x <= width,
                triplets@.len() == width as nat * row as nat + x as nat,
                forall|i: int|
                    0 <= i < triplets@.len() ==> triplets@[i] == cell_color(
                        image@,
                        (i % width as int) as nat,
                        (i / width as int) as nat,
                    ),
            decreases width - x,
        {
            let top = image.get_pixel(x, row * 2);
            let color = if row * 2 + 1 < height {
                let bottom = image.get_pixel(x, row * 2 + 1);
                Rgb {
                    r: halve_sum(top.r, bottom.r),
                    g: halve_sum(top.g, bottom.g),
                    b: halve_sum(top.b, bottom.b),
                }
            } else {
                Rgb { r: top.r, g: top.g, b: top.b }
            };
            proof {
                let i = width as int * row as int + x as int;
                assert(i == row as int * width as int + x as int) by (nonlinear_arith)
                    requires
                        i == width as int * row as int + x as int,
                ;
                vstd::arithmetic::div_mod::lemma_fundamental_div_mod_converse(
                    i,
                    width as int,
                    row as int,
                    x as int,
                );
            }
            triplets.push(color);
            x += 1;
        }
        proof {
            assert(width as nat * row as nat + width as nat == width as nat * (row + 1) as nat)
                by (nonlinear_arith);
        }
        row += 1;
    }
    proof {
        assert(triplets@ =~= cell_colors(image@));
    }
    triplets
}

/// Picks the character of a ramp for a luminance given in millionths and a
/// scale given in thousandths: the scaled luminance, cut off at one, times
/// the length of the ramp, rounded down, is the place in the ramp, the last
/// place at most. An empty ramp gives a blank.
pub fn luminance_to_character(
    luminance: u32,
    luminance_characters: &Vec<char>,
    luminance_scale: u32,
) -> (character: char)
    ensures
        character == luminance_character(luminance, luminance_characters@, luminance_scale),
{
    let len: usize = luminance_characters.len();
    if len == 0 {
        return ' ';
    }
    proof {
        assert(luminance as nat * luminance_scale as nat <= 0xffff_ffff * 0xffff_ffff)
            by (nonlinear_arith)
            requires
                luminance <= 0xffff_ffff,
                luminance_scale <= 0xffff_ffff,
        ;
    }
    assert(LUMINANCE_UNIT as nat * SCALE_UNIT as nat == 1000000000) by (nonlinear_arith)
        requires
            LUMINANCE_UNIT == 1000000,
            SCALE_UNIT == 1000,
    ;
    let one: u64 = (LUMINANCE_UNIT as u64) * (SCALE_UNIT as u64);
    let product: u64 = (luminance as u64) * (luminance_scale as u64);
    let scaled: u64 = if product >= one {
        one
    } else {
        product
    };
    proof {
        assert(scaled as nat * len as nat <= 1000000000 * 0xffff_ffff_ffff_ffff)
            by (nonlinear_arith)
            requires
                scaled <= 1000000000,
                len <= 0xffff_ffff_ffff_ffff,
        ;
    }
    let index: u128 = (scaled as u128) * (len as u128) / (one as u128);
    if index >= len as u128 {
        luminance_characters[len - 1]
    } else {
        luminance_characters[index as usize]
    }
}

/// Picks the edge character for a sample of the edge image.
pub fn edge_character(characters: &EdgeCharacters, sample: Rgba) -> (character: Option<char>)
    ensures
        character == edge_character_of(*characters, sample),
{
    match characters {
        EdgeCharacters::Directional {
            vertical,
            horizontal,
            forward_diagonal,
            backward_diagonal,
        } => {
            if is_max(sample, sample.r) {
                Some(*vertical)
            } else if is_max(sample, sample.g) {
                Some(*horizontal)
            } else if is_max(sample, sample.b) {
                Some(*forward_diagonal)
            } else if is_max(sample, sample.a) {
                Some(*backward_diagonal)
            } else {
                None
            }
        },
        EdgeCharacters::Single(character) => {
            if sample.r > 0 || sample.g > 0 || sample.b > 0 || sample.a > 0 {
                Some(*character)
            } else {
                None
            }
        },
    }
}

/// Whether `current` is above zero and no channel of the sample exceeds it.
fn is_max(sample: Rgba, current: u8) -> (max: bool)
    ensures
        max == is_max_sobel(sample, current),
{
    current > 0 && current >= sample.r && current >= sample.g && current >= sample.b && current
        >= sample.a
}

/// Reads the edge character of the cell in column `x` and cell row `row`.
pub fn edge_character_at(
    sobel: Option<&RgbaImage>,
    edge_detection: Option<&RatatuiCameraEdgeDetection>,
    x: u32,
    row: u32,
) -> (character: Option<char>)
    requires
        sobel.is_some() ==> sobel.unwrap().wf(),
    ensures
        character == edge_override(
            pixels_of(sobel),
            edge_detection_of(edge_detection),
            x as nat,
            row as nat,
        ),
{
    match (sobel, edge_detection) {
        (Some(sobel), Some(edge_detection)) => {
            if x < sobel.width && (row as u64) * 2 < sobel.height as u64 {
                let sample = sobel.get_pixel(x, row * 2);
                edge_character(&edge_detection.edge_characters, sample)
            } else {
                None
            }
        },
        _ => None,
    }
}

/// Picks the foreground colour of a cell.
pub fn foreground_of(
    color: Rgb,
    edge: Option<char>,
    edge_detection: Option<&RatatuiCameraEdgeDetection>,
) -> (foreground: ratatui::style::Color)
    ensures
        foreground == cell_foreground(color, edge, edge_detection_of(edge_detection)),
{
    match (edge, edge_detection) {
        (Some(_), Some(edge_detection)) => match edge_detection.edge_color {
            Some(edge_color) => edge_color,
            None => make_rgb_color(color.r, color.g, color.b),
        },
        _ => make_rgb_color(color.r, color.g, color.b),
    }
}

/// The first cell and the extent of what is drawn for an image in an area.
pub fn place_cells(image_width: u32, image_height: u32, area: Rect) -> (placed: (
    u32,
    u32,
    u32,
    u32,
))
    ensures
        (placed.2 as nat, placed.3 as nat) == drawn_extent(
            image_width as nat,
            image_height as nat,
            area,
        ),
        (placed.0 as int, placed.1 as int) == drawn_origin(placed.2 as nat, placed.3 as nat, area),
{
    let columns: u32 = if image_width <= area.width as u32 {
        image_width
    } else {
        area.width as u32
    };
    let rows: u32 = if image_height / 2 <= area.height as u32 {
        image_height / 2
    } else {
        area.height as u32
    };
    let x: u32 = (area.x as u32) + ((area.width as u32) - columns) / 2;
    let y: u32 = (area.y as u32) + ((area.height as u32) - rows) / 2;
    (x, y, columns, rows)
}

/// Asks `luminance` for the luminance of every colour, in order.
pub fn luminance_levels<F: Fn(Rgb) -> u32>(colors: &Vec<Rgb>, luminance: F) -> (levels: Vec<u32>)
    requires
        forall|color: Rgb| call_requires(luminance, (color,)),
    ensures
        levels@.len() == colors@.len(),
        forall|i: int|
            0 <= i < levels@.len() ==> call_ensures(luminance, (colors@[i],), #[trigger] levels@[i]),
{
    let mut levels: Vec<u32> = Vec::new();
    let mut i: usize = 0;
    while i < colors.len()
        invariant
            i <= colors@.len(),
            levels@.len() == i,
            forall|color: Rgb| call_requires(luminance, (color,)),
            forall|k: int|
                0 <= k < levels@.len() ==> call_ensures(
                    luminance,
                    (colors@[k],),
                    #[trigger] levels@[k],
                ),
        decreases colors@.len() - i,
    {
        let level: u32 = luminance(colors[i]);
        levels.push(level);
        i += 1;
    }
    levels
}

/// Puts together what is drawn, from the colours of the cells and their
/// luminance.
pub(crate) fn build_luminance_grid(
    image: &RgbaImage,
    colors: &Vec<Rgb>,
    sobel: Option<&RgbaImage>,
    characters: &Vec<char>,
    scale: u32,
    edge_detection: Option<&RatatuiCameraEdgeDetection>,
    area: Rect,
    levels: &Vec<u32>,
) -> (grid: CellGrid)
    requires
        image.wf(),
        sobel.is_some() ==> sobel.unwrap().wf(),
        colors@ == cell_colors(image@),
        levels@.len() == colors@.len(),
    ensures
        grid@.wf(),
        grid@ == luminance_grid(
            image@,
            pixels_of(sobel),
            characters@,
            scale,
            edge_detection_of(edge_detection),
            area,
            levels@,
        ),
{
    let width: u32 = image.width;
    let (x, y, columns, rows) = place_cells(image.width, image.height, area);
    let count: usize = colors.len();
    let mut glyphs: Vec<char> = Vec::new();
    let mut foregrounds: Vec<ratatui::style::Color> = Vec::new();
    let mut i: usize = 0;
    while i < count
        invariant
            image.wf(),
            sobel.is_some() ==> sobel.unwrap().wf(),
            width == image.width,
            count == colors@.len(),
            colors@ == cell_colors(image@),
            levels@.len() == colors@.len(),
            i <= count,
            glyphs@.len() == i,
            foregrounds@.len() == i,
            forall|k: int|
                0 <= k < i ==> glyphs@[k] == luminance_glyph(
                    levels@[k],
                    characters@,
                    scale,
                    edge_override(
                        pixels_of(sobel),
                        edge_detection_of(edge_detection),
                        (k % width as int) as nat,
                        (k / width as int) as nat,
                    ),
                ),
            forall|k: int|
                0 <= k < i ==> foregrounds@[k] == cell_foreground(
                    colors@[k],
                    edge_override(
                        pixels_of(sobel),
                        edge_detection_of(edge_detection),
                        (k % width as int) as nat,
                        (k / width as int) as nat,
                    ),
                    edge_detection_of(edge_detection),
                ),
        decreases count - i,
    {
        proof {
            assert(width > 0) by (nonlinear_arith)
                requires
                    i < width as nat * cell_rows(image.height as nat),
            ;
            vstd::arithmetic::div_mod::lemma_div_pos_is_pos(i as int, width as int);
            vstd::arithmetic::div_mod::lemma_fundamental_div_mod(i as int, width as int);
            assert((i as int) / (width as int) < cell_rows(image.height as nat)) by (nonlinear_arith)
                requires
                    i < width as nat * cell_rows(image.height as nat),
                    i as int == width as int * ((i as int) / (width as int)) + (i as int) % (
                    width as int),
                    0 <= (i as int) % (width as int),
                    width > 0,
            ;
        }
        let column: u32 = (i % (width as usize)) as u32;
        let row: u32 = (i / (width as usize)) as u32;
        let edge = edge_character_at(sobel, edge_detection, column, row);
        let glyph: char = match edge {
            Some(character) => character,
            None => luminance_to_character(levels[i], characters, scale),
        };
        let foreground = foreground_of(colors[i], edge, edge_detection);
        glyphs.push(glyph);
        foregrounds.push(foreground);
        i += 1;
    }
    let grid = CellGrid { x, y, columns, rows, stride: width, glyphs, colors: foregrounds };
    proof {
        assert(width as nat * rows as nat <= width as nat * cell_rows(image.height as nat))
            by (nonlinear_arith)
            requires
                rows as nat <= cell_rows(image.height as nat),
        ;
        let expected = luminance_grid(
            image@,
            pixels_of(sobel),
            characters@,
            scale,
            edge_detection_of(edge_detection),
            area,
            levels@,
        );
        assert(grid@.glyphs =~= expected.glyphs);
        assert(grid@.colors =~= expected.colors);
    }
    grid
}

/// Converts an image to the characters and colours of its cells, placed in
/// an area: the image is taken as it is, one column of pixels per column of
/// cells and two rows of pixels per row of cells, and `levels` holds the
/// luminance of every cell's colour, cell row after cell row.
pub fn convert_image_to_color_characters(
    image: &RgbaImage,
    sobel: Option<&RgbaImage>,
    config: &LuminanceConfig,
    edge_detection: Option<&RatatuiCameraEdgeDetection>,
    area: Rect,
    levels: &Vec<u32>,
) -> (grid: CellGrid)
    requires
        image.wf(),
        sobel.is_some() ==> sobel.unwrap().wf(),
        levels@.len() == cell_colors(image@).len(),
    ensures
        grid@.wf(),
        grid@ == luminance_grid(
            image@,
            pixels_of(sobel),
            config.luminance_characters@,
            config.luminance_scale,
            edge_detection_of(edge_detection),
            area,
            levels@,
        ),
{
    let colors = convert_image_to_rgb_triplets(image);
    build_luminance_grid(
        image,
        &colors,
        sobel,
        &config.luminance_characters,
        config.luminance_scale,
        edge_detection,
        area,
        levels,
    )
}

/// The image scaled for an area: to the area's width and twice its height,
/// or nothing where that exceeds the address space.
pub open spec fn scaled_for(image: RgbaImage, area: Rect) -> Option<Pixels> {
    if resize_fits(image.width, area.width as u32, (area.height * 2) as u32) {
        Some(image@.resized(area.width as u32, (area.height * 2) as u32))
    } else {
        None
    }
}

/// An optional image scaled for an area.
pub open spec fn scaled_option_for(image: Option<RgbaImage>, area: Rect) -> Option<Pixels> {
    match image {
        Some(image) => scaled_for(image, area),
        None => None,
    }
}

/// Whether an image has the size that an area asks for, the area's width
/// and twice its height, and scaling it for the area fits the address space.
pub open spec fn scales_to_itself(image: RgbaImage, area: Rect) -> bool {
    &&& image.width == area.width
    &&& image.height == area.height * 2
    &&& resize_fits(image.width, area.width as u32, (area.height * 2) as u32)
}

/// Scales an image for an area: to the area's width and twice its height.
/// An image that has this size already is copied.
pub fn scale_for(image: &RgbaImage, area: Rect) -> (scaled: Option<RgbaImage>)
    requires
        image.wf(),
    ensures
        pixels_of_owned(scaled) == scaled_for(*image, area),
        scaled.is_some() ==> scaled.unwrap().wf(),
        scales_to_itself(*image, area) ==> scaled_for(*image, area) == Some(image@),
{
    image.resize(area.width as u32, (area.height as u32) * 2)
}

/// Whether `after` is what the luminance strategy makes of the cells
/// `before`: where the image can be scaled for the area, the grid of
/// `luminance_grid` drawn over them, for luminance levels that `luminance`
/// gave for the colours of the cells; else the cells as they were.
pub open spec fn is_luminance_rendering<F: Fn(Rgb) -> u32>(
    before: Map<(u16, u16), CellView>,
    after: Map<(u16, u16), CellView>,
    image: RgbaImage,
    image_sobel: Option<RgbaImage>,
    config: LuminanceConfig,
    edge_detection: Option<RatatuiCameraEdgeDetection>,
    area: Rect,
    luminance: F,
) -> bool {
    match scaled_for(image, area) {
        Some(scaled) => exists|levels: Seq<u32>|
            {
                &&& levels.len() == cell_colors(scaled).len()
                &&& forall|i: int|
                    0 <= i < levels.len() ==> call_ensures(
                        luminance,
                        (cell_colors(scaled)[i],),
                        #[trigger] levels[i],
                    )
                &&& after == drawn(
                    before,
                    luminance_grid(
                        scaled,
                        scaled_option_for(image_sobel, area),
                        config.luminance_characters@,
                        config.luminance_scale,
                        edge_detection,
                        area,
                        levels,
                    ),
                )
            },
        None => after == before,
    }
}

/// The grid of the luminance strategy covers cells of the area only.
pub proof fn lemma_luminance_grid_stays_in_area(
    image: Pixels,
    sobel: Option<Pixels>,
    characters: Seq<char>,
    scale: u32,
    edge_detection: Option<RatatuiCameraEdgeDetection>,
    area: Rect,
    levels: Seq<u32>,
)
    ensures
        forall|position: (u16, u16)| #[trigger]
            luminance_grid(
                image,
                sobel,
                characters,
                scale,
                edge_detection,
                area,
                levels,
            ).covers(position) ==> area.contains(position.0 as int, position.1 as int),
{
}

/// The luminance strategy changes no cell outside the area, and adds or
/// removes no cell.
pub proof fn lemma_luminance_rendering_stays_in_area<F: Fn(Rgb) -> u32>(
    before: Map<(u16, u16), CellView>,
    after: Map<(u16, u16), CellView>,
    image: RgbaImage,
    image_sobel: Option<RgbaImage>,
    config: LuminanceConfig,
    edge_detection: Option<RatatuiCameraEdgeDetection>,
    area: Rect,
    luminance: F,
)
    requires
        is_luminance_rendering(
            before,
            after,
            image,
            image_sobel,
            config,
            edge_detection,
            area,
            luminance,
        ),
    ensures
        after.dom() == before.dom(),
        forall|position: (u16, u16)|
            before.dom().contains(position) && !area.contains(
                position.0 as int,
                position.1 as int,
            ) ==> #[trigger] after[position] == before[position],
{
    match scaled_for(image, area) {
        Some(scaled) => {
            let levels = choose|levels: Seq<u32>|
                after == drawn(
                    before,
                    luminance_grid(
                        scaled,
                        scaled_option_for(image_sobel, area),
                        config.luminance_characters@,
                        config.luminance_scale,
                        edge_detection,
                        area,
                        levels,
                    ),
                );
            let grid = luminance_grid(
                scaled,
                scaled_option_for(image_sobel, area),
                config.luminance_characters@,
                config.luminance_scale,
                edge_detection,
                area,
                levels,
            );
            lemma_drawn_keeps_the_rest(before, grid);
            assert forall|position: (u16, u16)|
                before.dom().contains(position) && !area.contains(
                    position.0 as int,
                    position.1 as int,
                ) implies #[trigger] after[position] == before[position] by {
                assert(!grid.covers(position));
            }
        },
        None => {},
    }
}

/// Draws an image into the area of a buffer with the luminance strategy.
///
/// The image is scaled to the area's width and twice its height, keeping
/// its aspect ratio, and centred in the area. Every cell shows the average
/// colour of the two pixels that it covers and the character that the
/// luminance of that colour selects; `luminance` gives the luminance of a
/// colour in millionths. Where an edge image and an edge configuration are
/// there, cells on an edge show an edge character. An image whose scaled
/// size exceeds the address space is not drawn. Images that have the size
/// that the area asks for are drawn as they are.
pub fn render_luminance<F: Fn(Rgb) -> u32>(
    image: &RgbaImage,
    image_sobel: &Option<RgbaImage>,
    config: &LuminanceConfig,
    edge_detection: &Option<RatatuiCameraEdgeDetection>,
    area: Rect,
    buf: &mut ratatui::buffer::Buffer,
    luminance: F,
)
    requires
        image.wf(),
        image_sobel.is_some() ==> image_sobel.unwrap().wf(),
        forall|color: Rgb| call_requires(luminance, (color,)),
    ensures
        is_luminance_rendering(
            buffer_cells(*old(buf)),
            buffer_cells(*final(buf)),
            *image,
            *image_sobel,
            *config,
            *edge_detection,
            area,
            luminance,
        ),
        scales_to_itself(*image, area) ==> scaled_for(*image, area) == Some(image@),
        scaled_for(*image, area).is_some() && image_sobel.is_some() && scales_to_itself(
            image_sobel.unwrap(),
            area,
        ) ==> scaled_option_for(*image_sobel, area) == Some(image_sobel.unwrap()@),
{
    let scaled = match scale_for(image, area) {
        Some(scaled) => scaled,
        None => {
            return ;
        },
    };
    let scaled_sobel: Option<RgbaImage> = match image_sobel {
        Some(image_sobel) => scale_for(image_sobel, area),
        None => None,
    };
    let colors = convert_image_to_rgb_triplets(&scaled);
    let levels = luminance_levels(&colors, luminance);
    let sobel = scaled_sobel.as_ref();
    let edges = edge_detection.as_ref();
    proof {
        assert(pixels_of(sobel) == scaled_option_for(*image_sobel, area));
        assert(edge_detection_of(edges) == *edge_detection);
    }
    let grid = build_luminance_grid(
        &scaled,
        &colors,
        sobel,
        &config.luminance_characters,
        config.luminance_scale,
        edges,
        area,
        &levels,
    );
    draw_grid(buf, &grid);
    proof {
        let expected = scaled_for(*image, area).unwrap();
        let witness = levels@;
        assert(expected == scaled@);
        assert(witness.len() == cell_colors(expected).len());
        assert forall|i: int| 0 <= i < witness.len() implies call_ensures(
            luminance,
            (cell_colors(expected)[i],),
            #[trigger] witness[i],
        ) by {
            assert(colors@[i] == cell_colors(expected)[i]);
        }
        assert(buffer_cells(*buf) == drawn(
            buffer_cells(*old(buf)),
            luminance_grid(
                expected,
                scaled_option_for(*image_sobel, area),
                config.luminance_characters@,
                config.luminance_scale,
                *edge_detection,
                area,
                witness,
            ),
        ));
    }
}

/// Draws a camera image with the luminance strategy.
pub struct RatatuiRenderWidgetLuminance {
    pub image: RgbaImage,
    pub image_sobel: Option<RgbaImage>,
    pub config: LuminanceConfig,
    pub edge_detection: Option<RatatuiCameraEdgeDetection>,
}

impl RatatuiRenderWidgetLuminance {
    /// Whether the images are well formed.
    pub open spec fn wf(self) -> bool {
        &&& self.image.wf()
        &&& self.image_sobel.is_some() ==> self.image_sobel.unwrap().wf()
    }

    pub fn new(
        image: RgbaImage,
        image_sobel: Option<RgbaImage>,
        config: LuminanceConfig,
        edge_detection: Option<RatatuiCameraEdgeDetection>,
    ) -> (widget: Self)
        ensures
            widget.image == image,
            widget.image_sobel == image_sobel,
            widget.config == config,
            widget.edge_detection == edge_detection,
    {
        RatatuiRenderWidgetLuminance { image, image_sobel, config, edge_detection }
    }

    /// Draws the image into the area of the buffer, as `render_luminance`
    /// does. No cell outside the area changes.
    pub fn render_ref<F: Fn(Rgb) -> u32>(
        &self,
        area: Rect,
        buf: &mut ratatui::buffer::Buffer,
        luminance: F,
    )
        requires
            self.wf(),
            forall|color: Rgb| call_requires(luminance, (color,)),
        ensures
            is_luminance_rendering(
                buffer_cells(*old(buf)),
                buffer_cells(*final(buf)),
                self.image,
                self.image_sobel,
                self.config,
                self.edge_detection,
                area,
                luminance,
            ),
            scales_to_itself(self.image, area) ==> scaled_for(self.image, area) == Some(
                self.image@,
            ),
            scaled_for(self.image, area).is_some() && self.image_sobel.is_some()
                && scales_to_itself(self.image_sobel.unwrap(), area) ==> scaled_option_for(
                self.image_sobel,
                area,
            ) == Some(self.image_sobel.unwrap()@),
    {
        render_luminance(
            &self.image,
            &self.image_sobel,
            &self.config,
            &self.edge_detection,
            area,
            buf,
            luminance,
        );
    }
}

} // verus!
