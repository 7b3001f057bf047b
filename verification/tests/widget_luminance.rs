use bevy_ratatui_camera::camera::LuminanceConfig;
use bevy_ratatui_camera::camera_edge_detection::{EdgeCharacters, RatatuiCameraEdgeDetection};
use bevy_ratatui_camera::pixels::{Rgb, Rgba, RgbaImage};
use bevy_ratatui_camera::terminal::Rect;
use bevy_ratatui_camera::widget_luminance::{
    convert_image_to_color_characters, convert_image_to_rgb_triplets, edge_character,
    luminance_to_character, RatatuiRenderWidgetLuminance,
};
use ratatui::buffer::Buffer;
use ratatui::style::Color;

fn uniform(width: u32, height: u32, rgba: [u8; 4]) -> RgbaImage {
    let mut data = Vec::new();
    for _ in 0..width * height {
        data.extend_from_slice(&rgba);
    }
    RgbaImage::from_raw(width, height, data).unwrap()
}

fn image_of(width: u32, height: u32, pixels: &[[u8; 4]]) -> RgbaImage {
    let mut data = Vec::new();
    for p in pixels {
        data.extend_from_slice(p);
    }
    RgbaImage::from_raw(width, height, data).unwrap()
}

/// Luminance in millionths: the plain mean of the channels.
fn mean_luminance(color: Rgb) -> u32 {
    ((color.r as u32 + color.g as u32 + color.b as u32) * 1_000_000) / (3 * 255)
}

fn ramp() -> Vec<char> {
    vec![' ', '.', '+', '#']
}

fn directional() -> EdgeCharacters {
    EdgeCharacters::Directional {
        vertical: '|',
        horizontal: '-',
        forward_diagonal: '/',
        backward_diagonal: '\\',
    }
}

fn edge_config(edge_characters: EdgeCharacters, edge_color: Option<Color>) -> RatatuiCameraEdgeDetection {
    RatatuiCameraEdgeDetection { edge_characters, edge_color, ..Default::default() }
}

#[test]
fn triplets_average_the_two_pixels_of_a_cell() {
    let image = image_of(
        2,
        3,
        &[
            [10, 20, 30, 255],
            [200, 200, 200, 255],
            [30, 40, 51, 255],
            [100, 100, 100, 255],
            [7, 8, 9, 255],
            [1, 2, 3, 255],
        ],
    );
    let triplets = convert_image_to_rgb_triplets(&image);
    assert_eq!(
        triplets,
        vec![
            Rgb { r: 20, g: 30, b: 40 },
            // 200 + 100 exceeds 255: the sum is cut off at 255 before it is halved
            Rgb { r: 127, g: 127, b: 127 },
            Rgb { r: 7, g: 8, b: 9 },
            Rgb { r: 1, g: 2, b: 3 },
        ]
    );
}

#[test]
fn triplets_of_an_empty_image_are_empty() {
    let image = RgbaImage::from_raw(0, 4, Vec::new()).unwrap();
    assert!(convert_image_to_rgb_triplets(&image).is_empty());
    let image = RgbaImage::from_raw(3, 0, Vec::new()).unwrap();
    assert!(convert_image_to_rgb_triplets(&image).is_empty());
}

#[test]
fn ramp_index_follows_the_formula() {
    let ramp = ramp();
    // scale 1.0: index = floor(luminance * 4), at most 3
    assert_eq!(luminance_to_character(0, &ramp, 1000), ' ');
    assert_eq!(luminance_to_character(249_999, &ramp, 1000), ' ');
    assert_eq!(luminance_to_character(250_000, &ramp, 1000), '.');
    assert_eq!(luminance_to_character(500_000, &ramp, 1000), '+');
    assert_eq!(luminance_to_character(749_999, &ramp, 1000), '+');
    assert_eq!(luminance_to_character(750_000, &ramp, 1000), '#');
    assert_eq!(luminance_to_character(1_000_000, &ramp, 1000), '#');
    assert_eq!(luminance_to_character(u32::MAX, &ramp, u32::MAX), '#');
    // scale 10.0: a luminance of 0.1 is already full
    assert_eq!(luminance_to_character(50_000, &ramp, 10_000), '+');
    assert_eq!(luminance_to_character(99_999, &ramp, 10_000), '#');
    assert_eq!(luminance_to_character(100_000, &ramp, 10_000), '#');
    // scale 0: everything is dark
    assert_eq!(luminance_to_character(1_000_000, &ramp, 0), ' ');
}

#[test]
fn empty_ramp_gives_a_blank() {
    assert_eq!(luminance_to_character(500_000, &Vec::new(), 1000), ' ');
}

#[test]
fn ramp_index_is_monotone_in_luminance() {
    let ramp: Vec<char> = "0123456789".chars().collect();
    let scale = 2500; // 2.5
    let mut last = '0';
    let mut luminance = 0u32;
    assert_eq!(luminance_to_character(0, &ramp, scale), '0');
    while luminance <= 1_000_000 {
        let c = luminance_to_character(luminance, &ramp, scale);
        assert!(c >= last);
        last = c;
        if luminance >= 400_000 {
            assert_eq!(c, '9');
        }
        luminance += 12_345;
    }
    assert_eq!(last, '9');
}

#[test]
fn strongest_channel_selects_its_direction() {
    let chars = directional();
    assert_eq!(edge_character(&chars, Rgba { r: 9, g: 1, b: 2, a: 3 }), Some('|'));
    assert_eq!(edge_character(&chars, Rgba { r: 1, g: 9, b: 2, a: 3 }), Some('-'));
    assert_eq!(edge_character(&chars, Rgba { r: 1, g: 2, b: 9, a: 3 }), Some('/'));
    assert_eq!(edge_character(&chars, Rgba { r: 1, g: 2, b: 3, a: 9 }), Some('\\'));
    assert_eq!(edge_character(&chars, Rgba { r: 0, g: 0, b: 0, a: 0 }), None);
    // ties go to the first direction in the order of the channels
    assert_eq!(edge_character(&chars, Rgba { r: 5, g: 5, b: 5, a: 5 }), Some('|'));
    assert_eq!(edge_character(&chars, Rgba { r: 0, g: 4, b: 4, a: 1 }), Some('-'));
}

#[test]
fn single_edge_character_needs_any_channel() {
    let chars = EdgeCharacters::Single('+');
    assert_eq!(edge_character(&chars, Rgba { r: 0, g: 0, b: 0, a: 0 }), None);
    assert_eq!(edge_character(&chars, Rgba { r: 0, g: 0, b: 1, a: 0 }), Some('+'));
    assert_eq!(edge_character(&chars, Rgba { r: 255, g: 0, b: 0, a: 7 }), Some('+'));
}

#[test]
fn color_characters_place_the_image_in_the_middle() {
    let image = uniform(2, 4, [255, 255, 255, 255]);
    let config = LuminanceConfig { luminance_characters: ramp(), luminance_scale: 1000 };
    let area = Rect::new(10, 20, 5, 6);
    let levels = vec![0, 300_000, 600_000, 1_000_000];
    let grid = convert_image_to_color_characters(&image, None, &config, None, area, &levels);
    assert_eq!((grid.columns, grid.rows, grid.stride), (2, 2, 2));
    assert_eq!((grid.x, grid.y), (10 + 1, 20 + 2));
    assert_eq!(grid.glyphs, vec![' ', '.', '+', '#']);
    // white over white: the sum is cut off at 255 before it is halved
    assert_eq!(grid.colors, vec![Color::Rgb(127, 127, 127); 4]);
}

#[test]
fn render_draws_one_character_per_cell() {
    // 2 x 4 pixels into an area of 2 x 2 cells: no scaling
    let image = image_of(
        2,
        4,
        &[
            [0, 0, 0, 255],
            [255, 255, 255, 255],
            [0, 0, 0, 255],
            [255, 255, 255, 255],
            [100, 100, 100, 255],
            [200, 100, 0, 255],
            [140, 140, 140, 255],
            [50, 100, 0, 255],
        ],
    );
    let config = LuminanceConfig { luminance_characters: ramp(), luminance_scale: 1000 };
    let widget = RatatuiRenderWidgetLuminance::new(image, None, config, None);
    let mut buf = Buffer::empty(ratatui::layout::Rect::new(0, 0, 4, 3));
    buf.cell_mut((1, 0)).unwrap().set_bg(Color::Blue);
    widget.render_ref(Rect::new(1, 0, 2, 2), &mut buf, mean_luminance);

    let cell = buf.cell((1, 0)).unwrap();
    assert_eq!(cell.symbol(), " ");
    assert_eq!(cell.fg, Color::Rgb(0, 0, 0));
    assert_eq!(cell.bg, Color::Blue);
    let cell = buf.cell((2, 0)).unwrap();
    // (127, 127, 127): 0.498 -> index 1
    assert_eq!(cell.symbol(), ".");
    assert_eq!(cell.fg, Color::Rgb(127, 127, 127));
    let cell = buf.cell((1, 1)).unwrap();
    assert_eq!(cell.symbol(), ".");
    assert_eq!(cell.fg, Color::Rgb(120, 120, 120));
    let cell = buf.cell((2, 1)).unwrap();
    // (125, 100, 0): mean 75 / 255 = 0.294 -> index 1
    assert_eq!(cell.symbol(), ".");
    assert_eq!(cell.fg, Color::Rgb(125, 100, 0));
    // cells outside the area are untouched
    for (x, y) in [(0u16, 0u16), (3, 0), (0, 1), (3, 1), (0, 2), (1, 2), (2, 2), (3, 2)] {
        let cell = buf.cell((x, y)).unwrap();
        assert_eq!(cell.symbol(), " ");
        assert_eq!(cell.fg, Color::Reset);
    }
}

#[test]
fn render_overrides_with_edge_characters_and_color() {
    let image = uniform(2, 2, [255, 255, 255, 255]);
    let sobel = image_of(2, 2, &[[0, 0, 0, 0], [0, 0, 7, 1], [9, 9, 9, 9], [9, 9, 9, 9]]);
    let config = LuminanceConfig { luminance_characters: ramp(), luminance_scale: 2100 };
    let edges = edge_config(directional(), Some(Color::Red));
    let widget = RatatuiRenderWidgetLuminance::new(image, Some(sobel), config, Some(edges));
    let mut buf = Buffer::empty(ratatui::layout::Rect::new(0, 0, 2, 1));
    widget.render_ref(Rect::new(0, 0, 2, 1), &mut buf, mean_luminance);
    let cell = buf.cell((0, 0)).unwrap();
    assert_eq!(cell.symbol(), "#");
    assert_eq!(cell.fg, Color::Rgb(127, 127, 127));
    let cell = buf.cell((1, 0)).unwrap();
    assert_eq!(cell.symbol(), "/");
    assert_eq!(cell.fg, Color::Red);
}

#[test]
fn render_without_edge_config_ignores_the_edge_image() {
    let image = uniform(1, 2, [255, 255, 255, 255]);
    let sobel = uniform(1, 2, [9, 0, 0, 0]);
    let config = LuminanceConfig { luminance_characters: ramp(), luminance_scale: 2100 };
    let widget = RatatuiRenderWidgetLuminance::new(image, Some(sobel), config, None);
    let mut buf = Buffer::empty(ratatui::layout::Rect::new(0, 0, 1, 1));
    widget.render_ref(Rect::new(0, 0, 1, 1), &mut buf, mean_luminance);
    assert_eq!(buf.cell((0, 0)).unwrap().symbol(), "#");
}

#[test]
fn render_scales_the_image_to_the_area() {
    // 8 x 8 white pixels into 4 x 2 cells: scaled to 4 x 4 pixels
    let image = uniform(8, 8, [255, 255, 255, 255]);
    let config = LuminanceConfig { luminance_characters: ramp(), luminance_scale: 2100 };
    let widget = RatatuiRenderWidgetLuminance::new(image, None, config, None);
    let mut buf = Buffer::empty(ratatui::layout::Rect::new(0, 0, 6, 4));
    widget.render_ref(Rect::new(1, 1, 4, 2), &mut buf, mean_luminance);
    for y in 0..4u16 {
        for x in 0..6u16 {
            let inside = (1..5).contains(&x) && (1..3).contains(&y);
            let cell = buf.cell((x, y)).unwrap();
            assert_eq!(cell.symbol(), if inside { "#" } else { " " });
        }
    }
}

#[test]
fn render_into_an_empty_area_draws_nothing() {
    let image = uniform(4, 4, [255, 255, 255, 255]);
    let config = LuminanceConfig { luminance_characters: ramp(), luminance_scale: 2100 };
    let widget = RatatuiRenderWidgetLuminance::new(image, None, config, None);
    let mut buf = Buffer::empty(ratatui::layout::Rect::new(0, 0, 3, 3));
    let before = buf.clone();
    widget.render_ref(Rect::new(1, 1, 0, 2), &mut buf, mean_luminance);
    assert_eq!(buf, before);
    widget.render_ref(Rect::new(1, 1, 2, 0), &mut buf, mean_luminance);
    assert_eq!(buf, before);
}

#[test]
fn render_clips_at_the_buffer() {
    let image = uniform(4, 4, [255, 255, 255, 255]);
    let config = LuminanceConfig { luminance_characters: ramp(), luminance_scale: 2100 };
    let widget = RatatuiRenderWidgetLuminance::new(image, None, config, None);
    let mut buf = Buffer::empty(ratatui::layout::Rect::new(0, 0, 2, 1));
    widget.render_ref(Rect::new(0, 0, 4, 2), &mut buf, mean_luminance);
    assert_eq!(buf.cell((0, 0)).unwrap().symbol(), "#");
    assert_eq!(buf.cell((1, 0)).unwrap().symbol(), "#");
    // an area at the far end of the coordinate range
    let mut buf = Buffer::empty(ratatui::layout::Rect::new(0, 0, 2, 1));
    let before = buf.clone();
    widget.render_ref(Rect::new(u16::MAX, u16::MAX, 4, 2), &mut buf, mean_luminance);
    assert_eq!(buf, before);
}
