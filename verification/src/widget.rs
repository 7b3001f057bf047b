//! The widget of a camera: the latest image of the camera, drawn with the
//! camera's strategy.
use vstd::prelude::*;
use crate::camera::RatatuiCameraStrategy;
use crate::camera_edge_detection::RatatuiCameraEdgeDetection;
use crate::pixels::{Rgb, RgbaImage};
use crate::terminal::{buffer_cells, CellView, Rect};
use crate::widget_halfblocks::RatatuiCameraWidgetHalfblocks;
use crate::widget_luminance::{
    scaled_for,
    scaled_option_for,
    scales_to_itself,
    is_luminance_rendering,
    lemma_luminance_rendering_stays_in_area,
    render_luminance,
};

verus! {

/// Holds the last image that a camera rendered, and the last edge image if
/// edges are detected. When drawn, it converts the image to characters with
/// the camera's strategy.
pub struct RatatuiCameraWidget {
    pub camera_image: RgbaImage,
    pub sobel_image: Option<RgbaImage>,
    pub strategy: RatatuiCameraStrategy,
    pub edge_detection: Option<RatatuiCameraEdgeDetection>,
}

impl RatatuiCameraWidget {
    /// Whether the images are well formed.
    pub open spec fn wf(self) -> bool {
        &&& self.camera_image.wf()
        &&& self.sobel_image.is_some() ==> self.sobel_image.unwrap().wf()
    }

    /// Tells whether the images are well formed.
    pub fn is_well_formed(&self) -> (well_formed: bool)
        ensures
            well_formed == self.wf(),
    {
        self.camera_image.is_well_formed() && match &self.sobel_image {
            Some(sobel_image) => sobel_image.is_well_formed(),
            None => true,
        }
    }

    /// Whether `after` is what drawing the widget into the area makes of the
    /// cells `before`.
    pub open spec fn is_rendering<F: Fn(Rgb) -> u32>(
        self,
        before: Map<(u16, u16), CellView>,
        after: Map<(u16, u16), CellView>,
        area: Rect,
        luminance: F,
    ) -> bool {
        match self.strategy {
            RatatuiCameraStrategy::HalfBlocks => after == (RatatuiCameraWidgetHalfblocks {
                camera_image: &self.camera_image,
            }).rendered(before, area),
            RatatuiCameraStrategy::Luminance(config) => is_luminance_rendering(
                before,
                after,
                self.camera_image,
                self.sobel_image,
                config,
                self.edge_detection,
                area,
                luminance,
            ),
        }
    }

    /// Draws the camera's image into the area of the buffer with the
    /// camera's strategy: half blocks, or characters picked by luminance,
    /// for which `luminance` gives the luminance of a colour in millionths.
    /// Images that have the size that the area asks for are drawn as they
    /// are.
    pub fn render<F: Fn(Rgb) -> u32>(
        &self,
        area: Rect,
        buf: &mut ratatui::buffer::Buffer,
        luminance: F,
    )
        requires
            self.wf(),
            forall|color: Rgb| call_requires(luminance, (color,)),
        ensures
            self.is_rendering(
                buffer_cells(*old(buf)),
                buffer_cells(*final(buf)),
                area,
                luminance,
            ),
            scales_to_itself(self.camera_image, area) ==> scaled_for(self.camera_image, area)
                == Some(self.camera_image@),
            self.strategy is Luminance && scaled_for(self.camera_image, area).is_some()
                && self.sobel_image.is_some() && scales_to_itself(
                self.sobel_image.unwrap(),
                area,
            ) ==> scaled_option_for(self.sobel_image, area) == Some(self.sobel_image.unwrap()@),
            buffer_cells(*final(buf)).dom() == buffer_cells(*old(buf)).dom(),
            forall|position: (u16, u16)|
                buffer_cells(*old(buf)).dom().contains(position) && !area.contains(
                    position.0 as int,
                    position.1 as int,
                ) ==> #[trigger] buffer_cells(*final(buf))[position] == buffer_cells(
                    *old(buf),
                )[position],
    {
        match &self.strategy {
            RatatuiCameraStrategy::HalfBlocks => {
                RatatuiCameraWidgetHalfblocks::new(&self.camera_image).render_ref(area, buf);
            },
            RatatuiCameraStrategy::Luminance(config) => {
                render_luminance(
                    &self.camera_image,
                    &self.sobel_image,
                    config,
                    &self.edge_detection,
                    area,
                    buf,
                    luminance,
                );
                proof {
                    lemma_luminance_rendering_stays_in_area(
                        buffer_cells(*old(buf)),
                        buffer_cells(*buf),
                        self.camera_image,
                        self.sobel_image,
                        *config,
                        self.edge_detection,
                        area,
                        luminance,
                    );
                }
            },
        }
    }
}

} // verus!
