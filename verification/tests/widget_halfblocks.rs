use bevy_ratatui_camera::camera::{LuminanceConfig, RatatuiCameraStrategy};
use bevy_ratatui_camera::pixels::{Rgb, RgbaImage};
use bevy_ratatui_camera::terminal::Rect;
use bevy_ratatui_camera::widget::RatatuiCameraWidget;
use bevy_ratatui_camera::widget_halfblocks::{place_halfblocks, RatatuiCameraWidgetHalfblocks};
use ratatui::buffer::Buffer;
use ratatui::style::Color;

fn image_from(width: u32, height: u32, pixels: &[[u8; 4]]) -> RgbaImage {
    let mut data = Vec::new();
    for p in pixels {
        data.extend_from_slice(p);
    }
    RgbaImage::from_raw(width, height, data).unwrap()
}

fn flat(width: u32, height: u32, rgba: [u8; 4]) -> RgbaImage {
    let mut data = Vec::new();
    for _ in 0..width * height {
        data.extend_from_slice(&rgba);
    }
    RgbaImage::from_raw(width, height, data).unwrap()
}

fn no_luminance(_color: Rgb) -> u32 {
    0
}

#[test]
fn halfblock_pairs_top_and_bottom_pixel() {
    let image = image_from(1, 2, &[[200, 10, 20, 255], [5, 100, 250, 255]]);
    let mut buf = Buffer::empty(ratatui::layout::Rect::new(0, 0, 1, 1));
    RatatuiCameraWidgetHalfblocks::new(&image).render_ref(Rect::new(0, 0, 1, 1), &mut buf);
    let cell = buf.cell((0, 0)).unwrap();
    assert_eq!(cell.symbol(), "\u{2580}");
    assert_eq!(cell.fg, Color::Rgb(200, 10, 20));
    assert_eq!(cell.bg, Color::Rgb(5, 100, 250));
}

#[test]
fn halfblocks_cover_two_pixel_rows_per_cell() {
    let image = image_from(
        2,
        4,
        &[
            [1, 1, 1, 255],
            [2, 2, 2, 255],
            [3, 3, 3, 255],
            [4, 4, 4, 255],
            [5, 5, 5, 255],
            [6, 6, 6, 255],
            [7, 7, 7, 255],
            [8, 8, 8, 255],
        ],
    );
    let mut buf = Buffer::empty(ratatui::layout::Rect::new(0, 0, 4, 4));
    RatatuiCameraWidgetHalfblocks::new(&image).render_ref(Rect::new(1, 1, 2, 2), &mut buf);
    let expect = [((1u16, 1u16), 1u8, 3u8), ((2, 1), 2, 4), ((1, 2), 5, 7), ((2, 2), 6, 8)];
    for (position, top, bottom) in expect {
        let cell = buf.cell(position).unwrap();
        assert_eq!(cell.symbol(), "\u{2580}");
        assert_eq!(cell.fg, Color::Rgb(top, top, top));
        assert_eq!(cell.bg, Color::Rgb(bottom, bottom, bottom));
    }
    for y in 0..4u16 {
        for x in 0..4u16 {
            if (1..3).contains(&x) && (1..3).contains(&y) {
                continue;
            }
            let cell = buf.cell((x, y)).unwrap();
            assert_eq!(cell.symbol(), " ");
            assert_eq!(cell.fg, Color::Reset);
            assert_eq!(cell.bg, Color::Reset);
        }
    }
}

#[test]
fn halfblocks_are_centred_in_a_wider_area() {
    // 2 x 2 pixels in 6 x 1 cells: the image stays 2 x 2, one row of two cells
    let image = flat(2, 2, [9, 9, 9, 255]);
    let mut buf = Buffer::empty(ratatui::layout::Rect::new(0, 0, 6, 1));
    RatatuiCameraWidgetHalfblocks::new(&image).render_ref(Rect::new(0, 0, 6, 1), &mut buf);
    for x in 0..6u16 {
        let cell = buf.cell((x, 0)).unwrap();
        if x == 2 || x == 3 {
            assert_eq!(cell.symbol(), "\u{2580}");
            assert_eq!(cell.fg, Color::Rgb(9, 9, 9));
        } else {
            assert_eq!(cell.symbol(), " ");
        }
    }
}

#[test]
fn halfblocks_of_an_empty_image_or_area_draw_nothing() {
    let mut buf = Buffer::empty(ratatui::layout::Rect::new(0, 0, 3, 3));
    let before = buf.clone();
    let empty = RgbaImage::from_raw(0, 0, Vec::new()).unwrap();
    RatatuiCameraWidgetHalfblocks::new(&empty).render_ref(Rect::new(0, 0, 0, 0), &mut buf);
    assert_eq!(buf, before);
    let image = flat(2, 2, [9, 9, 9, 255]);
    RatatuiCameraWidgetHalfblocks::new(&image).render_ref(Rect::new(1, 1, 0, 2), &mut buf);
    assert_eq!(buf, before);
    RatatuiCameraWidgetHalfblocks::new(&image).render_ref(Rect::new(1, 1, 2, 0), &mut buf);
    assert_eq!(buf, before);
}

#[test]
fn halfblock_placement_matches_the_formula() {
    assert_eq!(place_halfblocks(4, 6, Rect::new(10, 20, 8, 9)), Some(Rect::new(12, 23, 4, 3)));
    // an odd pixel row counts as a cell row
    assert_eq!(place_halfblocks(4, 5, Rect::new(0, 0, 4, 4)), Some(Rect::new(0, 0, 4, 3)));
    assert_eq!(place_halfblocks(0, 5, Rect::new(0, 0, 4, 4)), None);
    assert_eq!(place_halfblocks(4, 0, Rect::new(0, 0, 4, 4)), None);
    // more than 65535 cells
    assert_eq!(place_halfblocks(256, 512, Rect::new(0, 0, 256, 256)), None);
    assert_eq!(place_halfblocks(255, 514, Rect::new(0, 0, 255, 257)), Some(Rect::new(0, 0, 255, 257)));
    // the rectangle would end beyond the last coordinate
    assert_eq!(place_halfblocks(4, 4, Rect::new(u16::MAX, 0, 4, 2)), None);
}

#[test]
fn large_areas_are_left_alone_by_halfblocks() {
    let image = flat(2, 2, [9, 9, 9, 255]);
    let mut buf = Buffer::empty(ratatui::layout::Rect::new(0, 0, 2, 2));
    let before = buf.clone();
    // 300 x 300 cells hold more than 65535 half blocks
    RatatuiCameraWidgetHalfblocks::new(&image).render_ref(Rect::new(0, 0, 300, 300), &mut buf);
    assert_eq!(buf, before);
}

#[test]
fn widget_draws_with_its_strategy() {
    let image = image_from(1, 2, &[[200, 10, 20, 255], [200, 10, 20, 255]]);
    let widget = RatatuiCameraWidget {
        camera_image: image,
        sobel_image: None,
        strategy: RatatuiCameraStrategy::HalfBlocks,
        edge_detection: None,
    };
    let mut buf = Buffer::empty(ratatui::layout::Rect::new(0, 0, 1, 1));
    widget.render(Rect::new(0, 0, 1, 1), &mut buf, no_luminance);
    assert_eq!(buf.cell((0, 0)).unwrap().symbol(), "\u{2580}");
    assert_eq!(buf.cell((0, 0)).unwrap().bg, Color::Rgb(200, 10, 20));

    let image = image_from(1, 2, &[[200, 10, 20, 255], [200, 10, 20, 255]]);
    let widget = RatatuiCameraWidget {
        camera_image: image,
        sobel_image: None,
        strategy: RatatuiCameraStrategy::Luminance(LuminanceConfig {
            luminance_characters: vec!['a', 'b', 'c'],
            luminance_scale: 1000,
        }),
        edge_detection: None,
    };
    let mut buf = Buffer::empty(ratatui::layout::Rect::new(0, 0, 1, 1));
    widget.render(Rect::new(0, 0, 1, 1), &mut buf, |_color: Rgb| 400_000);
    let cell = buf.cell((0, 0)).unwrap();
    assert_eq!(cell.symbol(), "b");
    // 200 + 200 is cut off at 255 before it is halved
    assert_eq!(cell.fg, Color::Rgb(127, 10, 20));
    assert_eq!(cell.bg, Color::Reset);
}
