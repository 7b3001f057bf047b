//! The half block strategy: every cell shows the upper half block, whose
//! foreground colour is the upper and whose background colour is the lower
//! of two pixels. The encoding is that of `ratatui_image`.
use vstd::prelude::*;
use crate::pixels::{rgba_len, Pixels, RgbaImage};
use crate::terminal::{buffer_cells, rgb_color, CellView, Rect};
use crate::widget_luminance::{cell_rows, scale_for, scaled_for, scales_to_itself};

verus! {

/// The most cells that the half block encoding of `ratatui_image` can hold.
pub const MAX_HALFBLOCK_CELLS: u32 = 65535;

/// The most cell rows that the half block encoding of `ratatui_image` can
/// hold.
pub const MAX_HALFBLOCK_ROWS: u32 = 32767;

/// The width in pixels that one cell stands for.
pub const FONT_WIDTH: u16 = 1;

/// The height in pixels that one cell stands for: two pixels, one for the
/// foreground and one for the background of the half block.
pub const FONT_HEIGHT: u16 = 2;

/// The cells of a buffer after `ratatui_image` drew the half blocks of an
/// RGBA image of `image_width` by `image_height` pixels with the bytes `data`,
/// at `font_width` by `font_height` pixels per cell, into the rectangle at
/// `(x, y)` of `columns` by `rows` cells.
pub uninterp spec fn halfblocks_drawn(
    cells: Map<(u16, u16), CellView>,
    image_width: u32,
    image_height: u32,
    data: Seq<u8>,
    font_width: u16,
    font_height: u16,
    x: u16,
    y: u16,
    columns: u16,
    rows: u16,
) -> Map<(u16, u16), CellView>;

/// The cells after every cell of the rectangle that lies over two whole
/// pixel rows of the image got the upper half block, the colour of the upper
/// pixel as its foreground and the colour of the lower pixel as its
/// background. The cell `(rect.x + i, rect.y + j)` lies over the pixels
/// `(i, 2 * j)` and `(i, 2 * j + 1)`.
pub open spec fn halfblocks_paired(
    cells: Map<(u16, u16), CellView>,
    image: Pixels,
    rect: Rect,
) -> Map<(u16, u16), CellView> {
    Map::new(
        |position: (u16, u16)| cells.dom().contains(position),
        |position: (u16, u16)|
            if rect.contains(position.0 as int, position.1 as int) && position.0 - rect.x
                < image.width && (position.1 - rect.y) * 2 + 1 < image.height {
                let top = image.pixel(
                    (position.0 - rect.x) as nat,
                    ((position.1 - rect.y) * 2) as nat,
                );
                let bottom = image.pixel(
                    (position.0 - rect.x) as nat,
                    ((position.1 - rect.y) * 2 + 1) as nat,
                );
                CellView {
                    symbol: seq!['\u{2580}'],
                    fg: rgb_color(top.r, top.g, top.b),
                    bg: rgb_color(bottom.r, bottom.g, bottom.b),
                }
            } else {
                cells[position]
            },
    )
}

/// The cells after the half blocks of an image were drawn into a rectangle:
/// for an image of an even number of pixel rows, the pixels paired cell by
/// cell; for an odd number, where the encoding resamples the image, what
/// `ratatui_image` makes of it.
pub open spec fn halfblocks_of(
    cells: Map<(u16, u16), CellView>,
    image: Pixels,
    rect: Rect,
) -> Map<(u16, u16), CellView> {
    if image.height % 2 == 0 {
        halfblocks_paired(cells, image, rect)
    } else {
        halfblocks_drawn(
            cells,
            image.width as u32,
            image.height as u32,
            image.data,
            FONT_WIDTH,
            FONT_HEIGHT,
            rect.x,
            rect.y,
            rect.width,
            rect.height,
        )
    }
}

/// Whether the half block encoding can hold an image of the given size, and
/// the rectangle ends inside the range of cell coordinates.
pub open spec fn halfblocks_fit(
    image_width: u32,
    image_height: u32,
    x: u16,
    y: u16,
    columns: u16,
    rows: u16,
) -> bool {
    &&& image_width as nat * cell_rows(image_height as nat) <= MAX_HALFBLOCK_CELLS
    &&& cell_rows(image_height as nat) <= MAX_HALFBLOCK_ROWS
    &&& x + columns <= u16::MAX
    &&& y + rows <= u16::MAX
}

/// Builds the half blocks of an RGBA image with
/// `ratatui_image::protocol::halfblocks::Halfblocks::new`, for as many cells
/// as `ratatui_image::protocol::ImageSource::round_pixel_size_to_cells` gives
/// the image at the given font size, and draws them with the widget
/// `ratatui_image::Image` into the rectangle at `(x, y)` of `columns` by
/// `rows` cells.
///
/// The contract names the cells that result, and claims what the encoder and
/// the drawing loop show. No cell is added or removed, and no cell outside
/// the rectangle changes. For an image of an even number of pixel rows the
/// encoder copies the pixels without resampling, so every cell of the
/// rectangle that lies over the image gets the upper half block, the upper
/// pixel's colour as foreground and the lower pixel's as background. The
/// call is left out for font sizes other than one by two pixels, and where
/// the outside code would overflow: images of more than 65535 cells or 32767
/// cell rows, and rectangles that end beyond the last cell coordinate.
#[verifier::external_body]
fn draw_halfblocks(
    image_width: u32,
    image_height: u32,
    data: &Vec<u8>,
    font_width: u16,
    font_height: u16,
    x: u16,
    y: u16,
    columns: u16,
    rows: u16,
    buf: &mut ratatui::buffer::Buffer,
)
    requires
        data@.len() == rgba_len(image_width as nat, image_height as nat),
        font_width == 1,
        font_height == 2,
        halfblocks_fit(image_width, image_height, x, y, columns, rows),
    ensures
        buffer_cells(*final(buf)) == halfblocks_drawn(
            buffer_cells(*old(buf)),
            image_width,
            image_height,
            data@,
            font_width,
            font_height,
            x,
            y,
            columns,
            rows,
        ),
        image_height % 2 == 0 ==> buffer_cells(*final(buf)) == halfblocks_paired(
            buffer_cells(*old(buf)),
            (Pixels { width: image_width as nat, height: image_height as nat, data: data@ }),
            (Rect { x, y, width: columns, height: rows }),
        ),
        buffer_cells(*final(buf)).dom() == buffer_cells(*old(buf)).dom(),
        forall|position: (u16, u16)|
            buffer_cells(*old(buf)).dom().contains(position) && !(Rect {
                x,
                y,
                width: columns,
                height: rows,
            }).contains(position.0 as int, position.1 as int) ==> #[trigger] buffer_cells(
                *final(buf),
            )[position] == buffer_cells(*old(buf))[position],
{
    let source = image::RgbaImage::from_raw(image_width, image_height, data.clone()).unwrap();
    let cells = ratatui_image::protocol::ImageSource::round_pixel_size_to_cells(
        image_width,
        image_height,
        (font_width, font_height),
    );
    let halfblocks = ratatui_image::protocol::halfblocks::Halfblocks::new(
        image::DynamicImage::ImageRgba8(source),
        cells,
    ).unwrap();
    let mut protocol = ratatui_image::protocol::Protocol::Halfblocks(halfblocks);
    let area = ratatui::layout::Rect { x, y, width: columns, height: rows };
    ratatui::widgets::Widget::render(ratatui_image::Image::new(&mut protocol), area, buf);
}

/// The rectangle that the half blocks of a scaled image are drawn into: as
/// many columns as the image has, and a row for every two pixel rows and for
/// a last single one, as far as the area has room, centred in the area.
/// `None` where the image is empty, where the half block encoding cannot
/// hold it, or where the rectangle ends beyond the last cell coordinate.
pub open spec fn halfblocks_rect(image_width: u32, image_height: u32, area: Rect) -> Option<Rect> {
    let cell_rows = cell_rows(image_height as nat);
    let columns = if image_width <= area.width {
        image_width as int
    } else {
        area.width as int
    };
    let rows = if cell_rows <= area.height {
        cell_rows as int
    } else {
        area.height as int
    };
    let x = area.x + (area.width - columns) / 2;
    let y = area.y + (area.height - rows) / 2;
    if image_width > 0 && image_height > 0 && image_width * cell_rows <= MAX_HALFBLOCK_CELLS
        && cell_rows <= MAX_HALFBLOCK_ROWS && x + columns <= u16::MAX && y + rows <= u16::MAX {
        Some(Rect { x: x as u16, y: y as u16, width: columns as u16, height: rows as u16 })
    } else {
        None
    }
}

/// Computes the rectangle that the half blocks of a scaled image are drawn
/// into.
pub fn place_halfblocks(image_width: u32, image_height: u32, area: Rect) -> (rect: Option<Rect>)
    ensures
        rect == halfblocks_rect(image_width, image_height, area),
        rect.is_some() ==> halfblocks_fit(
            image_width,
            image_height,
            rect.unwrap().x,
            rect.unwrap().y,
            rect.unwrap().width,
            rect.unwrap().height,
        ),
        rect.is_some() ==> forall|x: int, y: int|
            rect.unwrap().contains(x, y) ==> area.contains(x, y),
{
    if image_width == 0 || image_height == 0 {
        return None;
    }
    let cell_rows: u32 = image_height / 2 + image_height % 2;
    if cell_rows > MAX_HALFBLOCK_ROWS || image_width > MAX_HALFBLOCK_CELLS {
        proof {
            if image_width > MAX_HALFBLOCK_CELLS {
                assert(image_width as nat * cell_rows as nat > MAX_HALFBLOCK_CELLS)
                    by (nonlinear_arith)
                    requires
                        image_width > MAX_HALFBLOCK_CELLS,
                        cell_rows >= 1,
                ;
            }
        }
        return None;
    }
    proof {
        assert(image_width * cell_rows <= 65535 * 32767) by (nonlinear_arith)
            requires
                image_width <= 65535,
                cell_rows <= 32767,
        ;
    }
    if image_width * cell_rows > MAX_HALFBLOCK_CELLS {
        return None;
    }
    let columns: u32 = if image_width <= area.width as u32 {
        image_width
    } else {
        area.width as u32
    };
    let rows: u32 = if cell_rows <= area.height as u32 {
        cell_rows
    } else {
        area.height as u32
    };
    let x: u32 = (area.x as u32) + ((area.width as u32) - columns) / 2;
    let y: u32 = (area.y as u32) + ((area.height as u32) - rows) / 2;
    if x + columns > 0xffff || y + rows > 0xffff {
        return None;
    }
    Some(Rect { x: x as u16, y: y as u16, width: columns as u16, height: rows as u16 })
}

/// Draws a camera image with the half block strategy.
pub struct RatatuiCameraWidgetHalfblocks<'a> {
    pub camera_image: &'a RgbaImage,
}

impl<'a> RatatuiCameraWidgetHalfblocks<'a> {
    pub fn new(camera_image: &'a RgbaImage) -> (widget: Self)
        ensures
            widget.camera_image == camera_image,
    {
        RatatuiCameraWidgetHalfblocks { camera_image }
    }

    /// The cells after the image was drawn into the area.
    pub open spec fn rendered(self, cells: Map<(u16, u16), CellView>, area: Rect) -> Map<
        (u16, u16),
        CellView,
    > {
        match scaled_for(*self.camera_image, area) {
            Some(image) => match halfblocks_rect(image.width as u32, image.height as u32, area) {
                Some(rect) => halfblocks_of(cells, image, rect),
                None => cells,
            },
            None => cells,
        }
    }

    /// The cells after an image that has the size that the area asks for,
    /// the area's width and twice its height, was drawn into the area: every
    /// cell of the area shows the upper half block, with the pixel under its
    /// upper half as foreground and the pixel under its lower half as
    /// background.
    pub open spec fn rendered_unscaled(
        self,
        cells: Map<(u16, u16), CellView>,
        area: Rect,
    ) -> Map<(u16, u16), CellView> {
        match halfblocks_rect(self.camera_image.width, self.camera_image.height, area) {
            Some(rect) => halfblocks_paired(cells, self.camera_image@, rect),
            None => cells,
        }
    }

    /// Draws the image into the area of the buffer.
    ///
    /// The image is scaled to the area's width and twice its height, keeping
    /// its aspect ratio, and its half blocks are drawn centred in the area:
    /// each cell shows the upper half block with the upper of its two pixels
    /// as foreground and the lower as background. An image that has the
    /// area's size already is drawn as it is. No cell outside the area
    /// changes, and the buffer keeps its cells. An image that is empty, or
    /// that the half block encoding cannot hold, is not drawn.
    pub fn render_ref(&self, area: Rect, buf: &mut ratatui::buffer::Buffer)
        requires
            self.camera_image.wf(),
        ensures
            buffer_cells(*final(buf)) == self.rendered(buffer_cells(*old(buf)), area),
            scales_to_itself(*self.camera_image, area) ==> buffer_cells(*final(buf))
                == self.rendered_unscaled(buffer_cells(*old(buf)), area),
            scales_to_itself(*self.camera_image, area) ==> scaled_for(*self.camera_image, area)
                == Some(self.camera_image@),
            buffer_cells(*final(buf)).dom() == buffer_cells(*old(buf)).dom(),
            forall|position: (u16, u16)|
                buffer_cells(*old(buf)).dom().contains(position) && !area.contains(
                    position.0 as int,
                    position.1 as int,
                ) ==> #[trigger] buffer_cells(*final(buf))[position] == buffer_cells(
                    *old(buf),
                )[position],
    {
        let scaled = match scale_for(self.camera_image, area) {
            Some(scaled) => scaled,
            None => {
                return ;
            },
        };
        match place_halfblocks(scaled.width, scaled.height, area) {
            Some(rect) => {
                draw_halfblocks(
                    scaled.width,
                    scaled.height,
                    &scaled.data,
                    FONT_WIDTH,
                    FONT_HEIGHT,
                    rect.x,
                    rect.y,
                    rect.width,
                    rect.height,
                    buf,
                );
            },
            None => {},
        }
    }
}

} // verus!
