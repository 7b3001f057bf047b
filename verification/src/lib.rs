//! Turns the frames that a camera renders into the cells of a terminal.
//!
//! The GPU copies each rendered frame into a linear buffer whose rows are
//! padded to an alignment (`geometry`). The render side pushes the buffer's
//! bytes into an image pipe, and the main side drains the pipe, keeps the
//! newest frame and strips the padding (`camera_image_pipe`). A camera has a
//! pipe for its image and, with edge detection, one for its edge image;
//! markers and terminal resizes replace them (`camera_readback`). The widget
//! of a camera draws the newest image into a buffer of `ratatui`, as half
//! blocks or as characters picked by luminance, with edge characters where
//! edges were detected (`widget`, `widget_halfblocks`, `widget_luminance`,
//! `widget_none`).
pub mod camera;
pub mod camera_edge_detection;
pub mod camera_image_pipe;
pub mod camera_readback;
pub mod geometry;
pub mod pixels;
pub mod terminal;
pub mod widget;
pub mod widget_halfblocks;
pub mod widget_luminance;
pub mod widget_none;

pub use camera::{LuminanceConfig, RatatuiCamera, RatatuiCameraStrategy};
pub use camera_edge_detection::{EdgeCharacters, RatatuiCameraEdgeDetection};
pub use widget::RatatuiCameraWidget;
