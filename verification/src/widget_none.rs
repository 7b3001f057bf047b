//! Drawing of edges alone: every cell that the edge image reaches is blank
//! in the colour of the image, but for the cells on a detected edge, which
//! show an edge character.
use vstd::prelude::*;
use crate::camera_edge_detection::RatatuiCameraEdgeDetection;
use crate::pixels::{Pixels, RgbaImage};
use crate::terminal::{
    buffer_cells,
    draw_grid,
    drawn,
    lemma_drawn_keeps_the_rest,
    CellView,
    GridView,
    Rect,
};
use crate::widget_luminance::{
    build_luminance_grid,
    cell_colors,
    cell_rows,
    convert_image_to_rgb_triplets,
    edge_detection_of,
    lemma_luminance_grid_stays_in_area,
    luminance_grid,
    scale_for,
    scaled_for,
    scaled_option_for,
    scales_to_itself,
};

verus! {

/// Draws the edges of a camera image.
pub struct RatatuiCameraWidgetNone<'a> {
    pub camera_image: &'a RgbaImage,
    pub sobel_image: &'a Option<RgbaImage>,
    pub edge_detection: &'a Option<RatatuiCameraEdgeDetection>,
}

impl<'a> RatatuiCameraWidgetNone<'a> {
    /// Whether the images are well formed.
    pub open spec fn wf(self) -> bool {
        &&& self.camera_image.wf()
        &&& self.sobel_image.is_some() ==> self.sobel_image.unwrap().wf()
    }

    pub fn new(
        camera_image: &'a RgbaImage,
        sobel_image: &'a Option<RgbaImage>,
        edge_detection: &'a Option<RatatuiCameraEdgeDetection>,
    ) -> (widget: Self)
        ensures
            widget.camera_image == camera_image,
            widget.sobel_image == sobel_image,
            widget.edge_detection == edge_detection,
    {
        RatatuiCameraWidgetNone { camera_image, sobel_image, edge_detection }
    }

    /// The cells after the edges were drawn into the area: without an edge
    /// image or an edge configuration, and where an image cannot be scaled
    /// for the area, the cells as they were; else the grid of `edges_grid`
    /// drawn over them.
    pub open spec fn rendered(self, cells: Map<(u16, u16), CellView>, area: Rect) -> Map<
        (u16, u16),
        CellView,
    > {
        match (
            *self.edge_detection,
            scaled_for(*self.camera_image, area),
            scaled_option_for(*self.sobel_image, area),
        ) {
            (Some(edge_detection), Some(image), Some(sobel)) => drawn(
                cells,
                edges_grid(image, sobel, edge_detection, area),
            ),
            _ => cells,
        }
    }

    /// Draws the edges of the image into the area of the buffer.
    ///
    /// The images are scaled to the area's width and twice its height,
    /// keeping their aspect ratio, and centred in the area. Every cell that
    /// the edge image reaches gets the average colour of the two pixels
    /// that it covers and a blank; cells on an edge get an edge character
    /// and, where one is configured, the edge colour. Cells that the edge
    /// image does not reach stay as they are. Without an edge image or an
    /// edge configuration nothing is drawn. Images that have the size that
    /// the area asks for are drawn as they are.
    pub fn render_ref(&self, area: Rect, buf: &mut ratatui::buffer::Buffer)
        requires
            self.wf(),
        ensures
            buffer_cells(*final(buf)) == self.rendered(buffer_cells(*old(buf)), area),
            scales_to_itself(*self.camera_image, area) ==> scaled_for(*self.camera_image, area)
                == Some(self.camera_image@),
            self.sobel_image.is_some() && scales_to_itself(self.sobel_image.unwrap(), area)
                ==> scaled_option_for(*self.sobel_image, area) == Some(
                self.sobel_image.unwrap()@,
            ),
            buffer_cells(*final(buf)).dom() == buffer_cells(*old(buf)).dom(),
            forall|position: (u16, u16)|
                buffer_cells(*old(buf)).dom().contains(position) && !area.contains(
                    position.0 as int,
                    position.1 as int,
                ) ==> #[trigger] buffer_cells(*final(buf))[position] == buffer_cells(
                    *old(buf),
                )[position],
    {
        let scaled = scale_for(self.camera_image, area);
        let scaled_sobel = match self.sobel_image {
            Some(sobel_image) => scale_for(sobel_image, area),
            None => None,
        };
        let (scaled, scaled_sobel) = match (scaled, scaled_sobel) {
            (Some(scaled), Some(scaled_sobel)) => (scaled, scaled_sobel),
            _ => {
                return ;
            },
        };
        if self.edge_detection.is_none() {
            return ;
        }
        let colors = convert_image_to_rgb_triplets(&scaled);
        let mut levels: Vec<u32> = Vec::new();
        let mut i: usize = 0;
        while i < colors.len()
            invariant
                i <= colors@.len(),
                levels@ == Seq::new(i as nat, |k: int| 0u32),
            decreases colors@.len() - i,
        {
            levels.push(0);
            i += 1;
            proof {
                assert(levels@ =~= Seq::new(i as nat, |k: int| 0u32));
            }
        }
        let characters: Vec<char> = Vec::new();
        let edges = self.edge_detection.as_ref();
        proof {
            assert(edge_detection_of(edges) == *self.edge_detection);
            assert(characters@ =~= Seq::<char>::empty());
        }
        let mut grid = build_luminance_grid(
            &scaled,
            &colors,
            Some(&scaled_sobel),
            &characters,
            0,
            edges,
            area,
            &levels,
        );
        let ghost whole = grid@;
        let sobel_rows: u32 = scaled_sobel.height / 2 + scaled_sobel.height % 2;
        if scaled_sobel.width < grid.columns {
            grid.columns = scaled_sobel.width;
        }
        if sobel_rows < grid.rows {
            grid.rows = sobel_rows;
        }
        proof {
            assert(grid@.stride * grid@.rows <= whole.stride * whole.rows) by (nonlinear_arith)
                requires
                    grid@.stride == whole.stride,
                    grid@.rows <= whole.rows,
            ;
            assert(grid@ == edges_grid(
                scaled@,
                scaled_sobel@,
                self.edge_detection.unwrap(),
                area,
            ));
            lemma_luminance_grid_stays_in_area(
                scaled@,
                Some(scaled_sobel@),
                Seq::<char>::empty(),
                0,
                *self.edge_detection,
                area,
                levels@,
            );
            lemma_drawn_keeps_the_rest(buffer_cells(*old(buf)), grid@);
        }
        draw_grid(buf, &grid);
    }
}

/// What is drawn of the edges of a scaled image: the grid of the luminance
/// strategy for an empty list of characters, which is blank but for the
/// edges, as far as the scaled edge image reaches.
pub open spec fn edges_grid(
    image: Pixels,
    sobel: Pixels,
    edge_detection: RatatuiCameraEdgeDetection,
    area: Rect,
) -> GridView {
    let whole = luminance_grid(
        image,
        Some(sobel),
        Seq::<char>::empty(),
        0,
        Some(edge_detection),
        area,
        Seq::new(cell_colors(image).len(), |i: int| 0u32),
    );
    GridView {
        x: whole.x,
        y: whole.y,
        columns: if sobel.width < whole.columns {
            sobel.width
        } else {
            whole.columns
        },
        rows: if cell_rows(sobel.height) < whole.rows {
            cell_rows(sobel.height)
        } else {
            whole.rows
        },
        stride: whole.stride,
        glyphs: whole.glyphs,
        colors: whole.colors,
    }
}

} // verus!
