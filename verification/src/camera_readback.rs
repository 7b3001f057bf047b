//! The readback state of one camera: which image pipes it has, and how
//! markers and terminal resizes change them.
//!
//! A camera without the marker has no pipe. With the marker it has one pipe
//! of the marker's dimensions, and with edge detection a second one of the
//! same dimensions. Pipes are never resized in place: a change of dimensions
//! replaces them whole.
use vstd::prelude::*;
use crate::camera::{terminal_dimensions, RatatuiCamera, RatatuiCameraStrategy};
use crate::camera_edge_detection::RatatuiCameraEdgeDetection;
use crate::geometry::{checked_buffer_size, padded_bytes_per_row};
use crate::camera_image_pipe::{
    checked_create_image_pipe,
    PIXEL_SIZE,
    is_matched_pair,
    pipe_fits,
    receive_image,
    Image,
    ImageReceiver,
    ImageSender,
};
use crate::pixels::{try_into_dynamic, ImageError, RgbaImage};
use crate::widget::RatatuiCameraWidget;

verus! {

/// Where a camera stands: without pipe, with the pipe of its image, or with
/// that and the pipe of its edge image; with the dimensions of the pipes.
pub enum ReadbackState {
    Unprovisioned,
    Provisioned { dimensions: (u32, u32) },
    ProvisionedWithEdges { dimensions: (u32, u32) },
}

/// Why the pipes of a camera could not be made.
#[derive(Clone, Copy, Debug, PartialEq, Eq, Structural)]
pub enum ReadbackError {
    /// An image of the asked dimensions does not fit the address space, or
    /// its readback buffer does not fit 64 bits.
    TooLarge,
}

/// The state after the pipes were replaced for new dimensions: a camera
/// without pipes stays without, every other keeps its pipes at the new
/// dimensions.
pub open spec fn state_after_resize(state: ReadbackState, dimensions: (u32, u32)) -> ReadbackState {
    match state {
        ReadbackState::Unprovisioned => ReadbackState::Unprovisioned,
        ReadbackState::Provisioned { .. } => ReadbackState::Provisioned { dimensions },
        ReadbackState::ProvisionedWithEdges { .. } => ReadbackState::ProvisionedWithEdges {
            dimensions,
        },
    }
}

/// The state after the camera marker was attached or changed.
pub open spec fn state_after_camera_insert(
    state: ReadbackState,
    dimensions: (u32, u32),
) -> ReadbackState {
    match state {
        ReadbackState::ProvisionedWithEdges { .. } => ReadbackState::ProvisionedWithEdges {
            dimensions,
        },
        _ => ReadbackState::Provisioned { dimensions },
    }
}

/// The state after the edge detection marker was attached.
pub open spec fn state_after_edge_detection_insert(state: ReadbackState) -> ReadbackState {
    match state {
        ReadbackState::Unprovisioned => ReadbackState::Unprovisioned,
        ReadbackState::Provisioned { dimensions } => ReadbackState::ProvisionedWithEdges {
            dimensions,
        },
        ReadbackState::ProvisionedWithEdges { dimensions } => ReadbackState::ProvisionedWithEdges {
            dimensions,
        },
    }
}

/// The state after the edge detection marker was removed.
pub open spec fn state_after_edge_detection_removal(state: ReadbackState) -> ReadbackState {
    match state {
        ReadbackState::ProvisionedWithEdges { dimensions } => ReadbackState::Provisioned {
            dimensions,
        },
        other => other,
    }
}

/// After two resizes one after the other, the pipes have the dimensions of
/// the second: the first leaves no trace.
pub proof fn lemma_last_resize_decides(
    state: ReadbackState,
    first: (u32, u32),
    second: (u32, u32),
)
    ensures
        state_after_resize(state_after_resize(state, first), second) == state_after_resize(
            state,
            second,
        ),
        !(state is Unprovisioned) ==> (state_after_resize(
            state_after_resize(state, first),
            second,
        ) matches ReadbackState::Provisioned { dimensions } && dimensions == second)
            || (state_after_resize(state_after_resize(state, first), second) matches ReadbackState::ProvisionedWithEdges {
            dimensions,
        } && dimensions == second),
{
}

/// A camera with pipes has exactly the pipes that its state names, and both
/// ends of each have the dimensions that the state names.
pub proof fn lemma_pipes_follow_the_state(readback: CameraReadback)
    requires
        readback.wf(),
    ensures
        match readback.state() {
            ReadbackState::Unprovisioned => readback.camera_pipe.is_none()
                && readback.sobel_pipe.is_none(),
            ReadbackState::Provisioned { dimensions } => {
                &&& readback.sobel_pipe.is_none()
                &&& readback.camera_pipe.unwrap().sender.dimensions() == dimensions
                &&& readback.camera_pipe.unwrap().receiver.dimensions() == dimensions
            },
            ReadbackState::ProvisionedWithEdges { dimensions } => {
                &&& readback.camera_pipe.unwrap().sender.dimensions() == dimensions
                &&& readback.camera_pipe.unwrap().receiver.dimensions() == dimensions
                &&& readback.sobel_pipe.unwrap().sender.dimensions() == dimensions
                &&& readback.sobel_pipe.unwrap().receiver.dimensions() == dimensions
            },
        },
{
}

/// The two ends of an image pipe.
pub struct ImagePipe {
    pub sender: ImageSender,
    pub receiver: ImageReceiver,
}

impl ImagePipe {
    /// Whether the pipe is as it was made: its image covers its dimensions
    /// and every byte of it is zero.
    pub open spec fn is_fresh(self) -> bool {
        &&& self.receiver.receiver_image.is_dense()
        &&& forall|i: int|
            0 <= i < self.receiver.receiver_image.data@.len()
                ==> self.receiver.receiver_image.data@[i] == 0u8
    }

    /// Whether the ends agree with each other and with the given dimensions
    /// and row alignment.
    pub open spec fn wf_for(self, dimensions: (u32, u32), alignment: u32) -> bool {
        &&& is_matched_pair(self.sender, self.receiver)
        &&& self.receiver.dimensions() == dimensions
        &&& self.receiver.alignment == alignment
    }
}

impl ImagePipe {
    /// Tells whether the ends agree with each other and with the given
    /// dimensions and row alignment.
    pub fn is_well_formed_for(&self, dimensions: (u32, u32), alignment: u32) -> (well_formed: bool)
        ensures
            well_formed == self.wf_for(dimensions, alignment),
    {
        if alignment == 0 || self.receiver.alignment != alignment {
            return false;
        }
        if self.receiver.receiver_image.width != dimensions.0
            || self.receiver.receiver_image.height != dimensions.1
            || self.receiver.receiver_image.pixel_size != PIXEL_SIZE {
            return false;
        }
        if self.sender.width != dimensions.0 || self.sender.height != dimensions.1 {
            return false;
        }
        if self.sender.padded_bytes_per_row != padded_bytes_per_row(
            dimensions.0,
            PIXEL_SIZE,
            alignment,
        ) {
            return false;
        }
        match checked_buffer_size(dimensions, PIXEL_SIZE, alignment) {
            Some(size) => self.sender.buffer_size == size,
            None => false,
        }
    }
}

/// The readback state of one camera.
pub struct CameraReadback {
    /// The row alignment of readback buffers on this GPU.
    pub alignment: u32,
    /// The camera marker, while it is attached.
    pub camera: Option<RatatuiCamera>,
    /// The pipe of the camera's image.
    pub camera_pipe: Option<ImagePipe>,
    /// The pipe of the camera's edge image.
    pub sobel_pipe: Option<ImagePipe>,
}

impl CameraReadback {
    /// Whether the pipes are those of the camera: none without the marker;
    /// with it, one matched pair of the marker's dimensions for the image,
    /// and at most one more of the same dimensions for the edge image.
    pub open spec fn wf(self) -> bool {
        &&& self.alignment > 0
        &&& self.camera.is_some() <==> self.camera_pipe.is_some()
        &&& self.sobel_pipe.is_some() ==> self.camera_pipe.is_some()
        &&& self.camera_pipe.is_some() ==> self.camera_pipe.unwrap().wf_for(
            self.camera.unwrap().dimensions,
            self.alignment,
        )
        &&& self.sobel_pipe.is_some() ==> self.sobel_pipe.unwrap().wf_for(
            self.camera.unwrap().dimensions,
            self.alignment,
        )
    }

    /// Tells whether the pipes are those of the camera.
    pub fn is_well_formed(&self) -> (well_formed: bool)
        ensures
            well_formed == self.wf(),
    {
        if self.alignment == 0 {
            return false;
        }
        match (&self.camera, &self.camera_pipe, &self.sobel_pipe) {
            (None, None, None) => true,
            (Some(camera), Some(camera_pipe), None) => camera_pipe.is_well_formed_for(
                camera.dimensions,
                self.alignment,
            ),
            (Some(camera), Some(camera_pipe), Some(sobel_pipe)) => camera_pipe.is_well_formed_for(
                camera.dimensions,
                self.alignment,
            ) && sobel_pipe.is_well_formed_for(camera.dimensions, self.alignment),
            _ => false,
        }
    }

    /// Whether the camera has the marker and follows the terminal's size.
    pub open spec fn follows_terminal(self) -> bool {
        self.camera.is_some() && self.camera.unwrap().autoresize
    }

    /// Whether every pipe of the camera is as it was made.
    pub open spec fn is_fresh(self) -> bool {
        &&& self.camera_pipe.is_some() ==> self.camera_pipe.unwrap().is_fresh()
        &&& self.sobel_pipe.is_some() ==> self.sobel_pipe.unwrap().is_fresh()
    }

    /// Where the camera stands.
    pub open spec fn state(self) -> ReadbackState {
        match (self.camera_pipe, self.sobel_pipe) {
            (None, _) => ReadbackState::Unprovisioned,
            (Some(pipe), None) => ReadbackState::Provisioned {
                dimensions: pipe.receiver.dimensions(),
            },
            (Some(pipe), Some(_)) => ReadbackState::ProvisionedWithEdges {
                dimensions: pipe.receiver.dimensions(),
            },
        }
    }

    /// The state of a camera without marker, on a GPU with the given row
    /// alignment.
    pub fn new(alignment: u32) -> (readback: Self)
        requires
            alignment > 0,
        ensures
            readback.wf(),
            readback.alignment == alignment,
            readback.state() is Unprovisioned,
    {
        CameraReadback { alignment, camera: None, camera_pipe: None, sobel_pipe: None }
    }

    /// Makes the pipes anew for the camera marker: the pipe of the image,
    /// and the pipe of the edge image if edges are asked for. `Err` where
    /// pipes of these dimensions cannot be held; nothing changes then.
    fn provision(&mut self, camera: RatatuiCamera, with_edges: bool) -> (result: Result<
        (),
        ReadbackError,
    >)
        requires
            old(self).wf(),
        ensures
            final(self).wf(),
            final(self).alignment == old(self).alignment,
            result.is_ok() <==> pipe_fits(camera.dimensions, old(self).alignment),
            result.is_err() ==> *final(self) == *old(self),
            result.is_ok() ==> final(self).is_fresh(),
            result.is_ok() ==> final(self).camera == Some(camera) && final(self).state() == (
            if with_edges {
                ReadbackState::ProvisionedWithEdges { dimensions: camera.dimensions }
            } else {
                ReadbackState::Provisioned { dimensions: camera.dimensions }
            }),
    {
        let camera_pipe = match checked_create_image_pipe(camera.dimensions, self.alignment) {
            Some((sender, receiver)) => ImagePipe { sender, receiver },
            None => {
                return Err(ReadbackError::TooLarge);
            },
        };
        let sobel_pipe = if with_edges {
            match checked_create_image_pipe(camera.dimensions, self.alignment) {
                Some((sender, receiver)) => Some(ImagePipe { sender, receiver }),
                None => {
                    return Err(ReadbackError::TooLarge);
                },
            }
        } else {
            None
        };
        self.camera = Some(camera);
        self.camera_pipe = Some(camera_pipe);
        self.sobel_pipe = sobel_pipe;
        Ok(())
    }

    /// The camera marker was attached or changed: the camera gets a new pipe
    /// of the marker's dimensions, and a new pipe for the edge image if it
    /// had one. The camera's render target is then the new sender's texture.
    /// `Err` where pipes of these dimensions cannot be held; nothing changes
    /// then.
    pub fn insert_camera_readback_components(&mut self, camera: RatatuiCamera) -> (result: Result<
        (),
        ReadbackError,
    >)
        requires
            old(self).wf(),
        ensures
            final(self).wf(),
            final(self).alignment == old(self).alignment,
            result.is_ok() <==> pipe_fits(camera.dimensions, old(self).alignment),
            result.is_err() ==> *final(self) == *old(self),
            result.is_ok() ==> final(self).is_fresh(),
            result.is_ok() ==> final(self).camera == Some(camera) && final(self).state()
                == state_after_camera_insert(old(self).state(), camera.dimensions),
    {
        let with_edges: bool = self.sobel_pipe.is_some();
        self.provision(camera, with_edges)
    }

    /// The camera marker was removed: the camera loses its pipes.
    pub fn handle_ratatui_camera_removal(&mut self)
        requires
            old(self).wf(),
        ensures
            final(self).wf(),
            final(self).alignment == old(self).alignment,
            final(self).camera.is_none(),
            final(self).state() is Unprovisioned,
    {
        self.camera = None;
        self.camera_pipe = None;
        self.sobel_pipe = None;
    }

    /// The edge detection marker was attached: a camera with the camera
    /// marker gets a new pipe for its edge image, of the dimensions of its
    /// image; its render pass then needs the depth and the normal prepass
    /// and no multisampling. A camera without the camera marker stays as it
    /// is. The result tells whether the camera has the pipe now.
    pub fn insert_edge_detection_readback_components(&mut self) -> (result: Result<
        bool,
        ReadbackError,
    >)
        requires
            old(self).wf(),
        ensures
            final(self).wf(),
            final(self).alignment == old(self).alignment,
            final(self).camera == old(self).camera,
            final(self).camera_pipe == old(self).camera_pipe,
            result.is_err() <==> old(self).camera.is_some() && !pipe_fits(
                old(self).camera.unwrap().dimensions,
                old(self).alignment,
            ),
            result.is_err() ==> *final(self) == *old(self),
            result.is_ok() ==> result.unwrap() == old(self).camera.is_some(),
            result.is_ok() ==> final(self).state() == state_after_edge_detection_insert(
                old(self).state(),
            ),
            result.is_ok() && old(self).camera.is_some() ==> final(self).sobel_pipe.unwrap().is_fresh(),
    {
        let dimensions = match &self.camera {
            Some(camera) => camera.dimensions,
            None => {
                return Ok(false);
            },
        };
        match checked_create_image_pipe(dimensions, self.alignment) {
            Some((sender, receiver)) => {
                self.sobel_pipe = Some(ImagePipe { sender, receiver });
                Ok(true)
            },
            None => Err(ReadbackError::TooLarge),
        }
    }

    /// The edge detection marker was removed: the camera loses the pipe of
    /// its edge image.
    pub fn handle_ratatui_edge_detection_removal(&mut self)
        requires
            old(self).wf(),
        ensures
            final(self).wf(),
            final(self).alignment == old(self).alignment,
            final(self).camera == old(self).camera,
            final(self).camera_pipe == old(self).camera_pipe,
            final(self).state() == state_after_edge_detection_removal(old(self).state()),
    {
        self.sobel_pipe = None;
    }

    /// The image's dimensions changed: every pipe of the camera is replaced
    /// by a new one of the new dimensions. A camera without pipes stays
    /// without. `Err` where pipes of these dimensions cannot be held;
    /// nothing changes then.
    pub fn resize(&mut self, dimensions: (u32, u32)) -> (result: Result<(), ReadbackError>)
        requires
            old(self).wf(),
        ensures
            final(self).wf(),
            final(self).alignment == old(self).alignment,
            result.is_err() <==> old(self).camera.is_some() && !pipe_fits(
                dimensions,
                old(self).alignment,
            ),
            result.is_err() ==> *final(self) == *old(self),
            result.is_ok() ==> final(self).state() == state_after_resize(
                old(self).state(),
                dimensions,
            ),
            result.is_ok() && old(self).camera.is_some() ==> final(self).is_fresh(),
            result.is_ok() && old(self).camera.is_some() ==> final(self).camera == Some(
                RatatuiCamera { dimensions, ..old(self).camera.unwrap() },
            ),
            old(self).camera.is_none() ==> *final(self) == *old(self),
    {
        let camera = match &self.camera {
            Some(camera) => camera.with_dimensions(dimensions),
            None => {
                return Ok(());
            },
        };
        let with_edges: bool = self.sobel_pipe.is_some();
        self.provision(camera, with_edges)
    }

    /// The terminal was resized to `columns` by `rows` cells. A camera that
    /// follows the terminal gets the dimensions that `autoresize_fn` makes of
    /// `(columns, rows)`, and new pipes of these dimensions; every
    /// other camera stays as it is. The result tells whether the pipes were
    /// replaced; `Err` where pipes of the new dimensions cannot be held, and
    /// nothing changes then.
    pub fn handle_resize<F: Fn((u32, u32)) -> (u32, u32)>(
        &mut self,
        columns: u16,
        rows: u16,
        autoresize_fn: F,
    ) -> (result: Result<bool, ReadbackError>)
        requires
            old(self).wf(),
            call_requires(autoresize_fn, ((columns as u32, rows as u32),)),
        ensures
            final(self).wf(),
            final(self).alignment == old(self).alignment,
            !old(self).follows_terminal() ==> result == Ok::<bool, ReadbackError>(false),
            !old(self).follows_terminal() ==> *final(self) == *old(self),
            old(self).follows_terminal() ==> exists|dimensions: (u32, u32)|
                {
                    &&& call_ensures(
                        autoresize_fn,
                        ((columns as u32, rows as u32),),
                        dimensions,
                    )
                    &&& if pipe_fits(dimensions, old(self).alignment) {
                        &&& result == Ok::<bool, ReadbackError>(true)
                        &&& final(self).state() == state_after_resize(
                            old(self).state(),
                            dimensions,
                        )
                        &&& final(self).camera == Some(
                            RatatuiCamera { dimensions, ..old(self).camera.unwrap() },
                        )
                        &&& final(self).is_fresh()
                    } else {
                        &&& result == Err::<bool, ReadbackError>(ReadbackError::TooLarge)
                        &&& *final(self) == *old(self)
                    }
                },
    {
        let follows: bool = match &self.camera {
            Some(camera) => camera.autoresize,
            None => false,
        };
        if !follows {
            return Ok(false);
        }
        let dimensions = autoresize_fn(terminal_dimensions(columns, rows));
        match self.resize(dimensions) {
            Ok(()) => Ok(true),
            Err(error) => Err(error),
        }
    }

    /// Drains the channels of the camera's pipes and stores the newest
    /// frame of each in its image, as `receive_image` does. Pipes and
    /// dimensions stay.
    pub fn receive_camera_images(&mut self)
        requires
            old(self).wf(),
        ensures
            final(self).wf(),
            final(self).alignment == old(self).alignment,
            final(self).camera == old(self).camera,
            final(self).state() == old(self).state(),
            old(self).camera_pipe.is_some() ==> exists|frames: Seq<Vec<u8>>|
                final(self).camera_pipe.unwrap().receiver.receiver_image.data@ == old(
                    self,
                ).camera_pipe.unwrap().receiver.receiver_image.after_frames(
                    frames,
                    old(self).alignment as nat,
                ),
            old(self).sobel_pipe.is_some() ==> exists|frames: Seq<Vec<u8>>|
                final(self).sobel_pipe.unwrap().receiver.receiver_image.data@ == old(
                    self,
                ).sobel_pipe.unwrap().receiver.receiver_image.after_frames(
                    frames,
                    old(self).alignment as nat,
                ),
    {
        match &mut self.camera_pipe {
            Some(pipe) => {
                receive_image(&mut pipe.receiver);
            },
            None => {},
        }
        match &mut self.sobel_pipe {
            Some(pipe) => {
                receive_image(&mut pipe.receiver);
            },
            None => {},
        }
    }
}

/// The new dimensions of a camera's image for a terminal of `columns` by
/// `rows` cells: what `autoresize_fn` makes of `(columns, rows)`, where the
/// camera follows the terminal; `None` where it does not.
pub fn autoresize_ratatui_camera_system<F: Fn((u32, u32)) -> (u32, u32)>(
    camera: &RatatuiCamera,
    columns: u16,
    rows: u16,
    autoresize_fn: F,
) -> (dimensions: Option<(u32, u32)>)
    requires
        call_requires(autoresize_fn, ((columns as u32, rows as u32),)),
    ensures
        dimensions.is_some() <==> camera.autoresize,
        dimensions.is_some() ==> call_ensures(
            autoresize_fn,
            ((columns as u32, rows as u32),),
            dimensions.unwrap(),
        ),
{
    if camera.autoresize {
        Some(autoresize_fn(terminal_dimensions(columns, rows)))
    } else {
        None
    }
}

/// Copies an image of a pipe.
fn copy_image(image: &Image) -> (copy: Image)
    ensures
        copy.width == image.width,
        copy.height == image.height,
        copy.pixel_size == image.pixel_size,
        copy.data@ == image.data@,
{
    let mut data: Vec<u8> = Vec::new();
    let mut i: usize = 0;
    while i < image.data.len()
        invariant
            i <= image.data@.len(),
            data@ == image.data@.subrange(0, i as int),
        decreases image.data@.len() - i,
    {
        data.push(image.data[i]);
        i += 1;
        proof {
            assert(data@ =~= image.data@.subrange(0, i as int));
        }
    }
    proof {
        assert(data@ =~= image.data@);
    }
    Image { width: image.width, height: image.height, pixel_size: image.pixel_size, data }
}

/// What the image of an optional receiver is when read as RGBA pixels.
pub open spec fn sobel_as_rgba(sobel_receiver: Option<&ImageReceiver>) -> Option<
    Result<crate::pixels::Pixels, ImageError>,
> {
    match sobel_receiver {
        Some(receiver) => Some(crate::pixels::as_rgba(receiver.receiver_image)),
        None => None,
    }
}

/// Makes the widget of a camera from the images that its pipes hold now:
/// the camera's image, the edge image if the camera has one, the strategy
/// and the edge configuration. `Err` where an image cannot be read as RGBA
/// pixels, the camera's image first.
pub fn create_ratatui_camera_widget(
    camera_receiver: &ImageReceiver,
    sobel_receiver: Option<&ImageReceiver>,
    strategy: RatatuiCameraStrategy,
    edge_detection: Option<RatatuiCameraEdgeDetection>,
) -> (result: Result<RatatuiCameraWidget, ImageError>)
    ensures
        match (crate::pixels::as_rgba(camera_receiver.receiver_image), sobel_as_rgba(
            sobel_receiver,
        )) {
            (Err(error), _) => result == Err::<RatatuiCameraWidget, ImageError>(error),
            (Ok(_), Some(Err(error))) => result == Err::<RatatuiCameraWidget, ImageError>(error),
            (Ok(camera_pixels), Some(Ok(sobel_pixels))) => {
                &&& result.is_ok()
                &&& result.unwrap().wf()
                &&& result.unwrap().camera_image@ == camera_pixels
                &&& result.unwrap().sobel_image.is_some()
                &&& result.unwrap().sobel_image.unwrap()@ == sobel_pixels
                &&& result.unwrap().strategy == strategy
                &&& result.unwrap().edge_detection == edge_detection
            },
            (Ok(camera_pixels), None) => {
                &&& result.is_ok()
                &&& result.unwrap().wf()
                &&& result.unwrap().camera_image@ == camera_pixels
                &&& result.unwrap().sobel_image.is_none()
                &&& result.unwrap().strategy == strategy
                &&& result.unwrap().edge_detection == edge_detection
            },
        },
{
    let camera_image = match try_into_dynamic(copy_image(&camera_receiver.receiver_image)) {
        Ok(image) => image,
        Err(error) => {
            return Err(error);
        },
    };
    let sobel_image: Option<RgbaImage> = match sobel_receiver {
        Some(receiver) => match try_into_dynamic(copy_image(&receiver.receiver_image)) {
            Ok(image) => Some(image),
            Err(error) => {
                return Err(error);
            },
        },
        None => None,
    };
    Ok(RatatuiCameraWidget { camera_image, sobel_image, strategy, edge_detection })
}

} // verus!
