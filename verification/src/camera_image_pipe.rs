//! The image pipe: a sender that describes the GPU side of a readback and a
//! receiver that owns the CPU-side image, joined by a channel of byte
//! vectors.
//!
//! The render side pushes one padded frame per tick onto the channel. The
//! main side drains the channel once per tick, keeps the newest frame, strips
//! the row padding and stores the dense pixels in the receiver's image.
use vstd::prelude::*;
use crate::geometry::{
    buffer_size,
    buffer_size_of,
    lemma_align_up_is_least_multiple,
    padded_bytes_per_row,
    padded_row_bytes_of,
    row_bytes_of,
};

verus! {

/// Bytes per pixel of the texture format that the pipes carry (RGBA, 8 bits
/// per channel).
pub const PIXEL_SIZE: u32 = 4;

/// The sending end of a channel of `crossbeam_channel`. Nothing is known of
/// what is inside.
#[verifier::external_type_specification]
#[verifier::external_body]
#[verifier::reject_recursive_types(T)]
pub struct ExSender<T>(crossbeam_channel::Sender<T>);

/// The receiving end of a channel of `crossbeam_channel`. Nothing is known
/// of what is inside.
#[verifier::external_type_specification]
#[verifier::external_body]
#[verifier::reject_recursive_types(T)]
pub struct ExReceiver<T>(crossbeam_channel::Receiver<T>);

/// `crossbeam_channel::Sender::clone` hands out one more sending end of the
/// same channel. The contract claims nothing of it.
pub assume_specification<T>[ <crossbeam_channel::Sender<T> as Clone>::clone ](
    sender: &crossbeam_channel::Sender<T>,
) -> (other: crossbeam_channel::Sender<T>)
;

/// The smaller of two naturals.
pub open spec fn min_nat(a: nat, b: nat) -> nat {
    if a <= b {
        a
    } else {
        b
    }
}

/// The pixel bytes of row `i` of a padded buffer: the row starts at
/// `i * aligned_row_bytes`, and of its bytes the first `row_bytes` are kept,
/// as far as the buffer reaches.
pub open spec fn trimmed_row(data: Seq<u8>, row_bytes: nat, aligned_row_bytes: nat, i: nat) -> Seq<
    u8,
> {
    let start = min_nat(i * aligned_row_bytes, data.len());
    let end = min_nat(start + min_nat(row_bytes, aligned_row_bytes), data.len());
    data.subrange(start as int, end as int)
}

/// The first `rows` rows of a padded buffer, each trimmed to `row_bytes`, one
/// after the other.
pub open spec fn stripped_rows(
    data: Seq<u8>,
    row_bytes: nat,
    aligned_row_bytes: nat,
    rows: nat,
) -> Seq<u8>
    decreases rows,
{
    if rows == 0 {
        Seq::<u8>::empty()
    } else {
        stripped_rows(data, row_bytes, aligned_row_bytes, (rows - 1) as nat) + trimmed_row(
            data,
            row_bytes,
            aligned_row_bytes,
            (rows - 1) as nat,
        )
    }
}

/// Row `i` of a dense pixel buffer.
pub open spec fn dense_row(dense: Seq<u8>, row_bytes: nat, i: nat) -> Seq<u8> {
    dense.subrange((i * row_bytes) as int, (i * row_bytes + row_bytes) as int)
}

/// Whether `padded` is `dense` with every row lengthened to
/// `aligned_row_bytes`; what the added bytes hold is left open.
pub open spec fn is_padded_copy(
    padded: Seq<u8>,
    dense: Seq<u8>,
    row_bytes: nat,
    aligned_row_bytes: nat,
    height: nat,
) -> bool {
    &&& row_bytes <= aligned_row_bytes
    &&& dense.len() == row_bytes * height
    &&& padded.len() == aligned_row_bytes * height
    &&& forall|i: nat|
        i < height ==> #[trigger] trimmed_row(padded, row_bytes, aligned_row_bytes, i) == dense_row(
            dense,
            row_bytes,
            i,
        )
}

/// The dense pixel bytes that a received frame stands for, for an image of
/// the given size: the frame itself where rows need no padding, else its
/// first `height` rows, each trimmed to its pixel bytes.
pub open spec fn reassembled(
    frame: Seq<u8>,
    width: nat,
    height: nat,
    pixel_size: nat,
    alignment: nat,
) -> Seq<u8>
    recommends
        alignment > 0,
{
    let row_bytes = row_bytes_of(width, pixel_size);
    let aligned_row_bytes = padded_row_bytes_of(width, pixel_size, alignment);
    if row_bytes == aligned_row_bytes {
        frame
    } else {
        stripped_rows(frame, row_bytes, aligned_row_bytes, height)
    }
}

/// The frame that a drain keeps: the last one received, if any was.
pub open spec fn latest_frame(frames: Seq<Vec<u8>>) -> Option<Seq<u8>> {
    if frames.len() > 0 {
        Some(frames.last()@)
    } else {
        None
    }
}

/// Rows that start at or behind the end of the buffer add nothing.
pub proof fn lemma_rows_past_end_add_nothing(
    data: Seq<u8>,
    row_bytes: nat,
    aligned_row_bytes: nat,
    from: nat,
    rows: nat,
)
    requires
        from <= rows,
        from * aligned_row_bytes >= data.len(),
    ensures
        stripped_rows(data, row_bytes, aligned_row_bytes, rows) == stripped_rows(
            data,
            row_bytes,
            aligned_row_bytes,
            from,
        ),
    decreases rows,
{
    if rows > from {
        let last = (rows - 1) as nat;
        lemma_rows_past_end_add_nothing(data, row_bytes, aligned_row_bytes, from, last);
        assert(last * aligned_row_bytes >= from * aligned_row_bytes) by (nonlinear_arith)
            requires
                last >= from,
        ;
        assert(trimmed_row(data, row_bytes, aligned_row_bytes, last) =~= Seq::<u8>::empty());
        assert(stripped_rows(data, row_bytes, aligned_row_bytes, rows) =~= stripped_rows(
            data,
            row_bytes,
            aligned_row_bytes,
            last,
        ));
    }
}

/// Stripping the first `rows` rows of a padded copy gives the first `rows`
/// rows of the dense buffer.
pub proof fn lemma_stripped_rows_of_padded_copy(
    padded: Seq<u8>,
    dense: Seq<u8>,
    row_bytes: nat,
    aligned_row_bytes: nat,
    height: nat,
    rows: nat,
)
    requires
        is_padded_copy(padded, dense, row_bytes, aligned_row_bytes, height),
        rows <= height,
    ensures
        rows * row_bytes <= dense.len(),
        stripped_rows(padded, row_bytes, aligned_row_bytes, rows) == dense.subrange(
            0,
            (rows * row_bytes) as int,
        ),
    decreases rows,
{
    assert(rows * row_bytes <= height * row_bytes) by (nonlinear_arith)
        requires
            rows <= height,
    ;
    assert(height * row_bytes == row_bytes * height) by (nonlinear_arith);
    if rows == 0 {
        assert(rows * row_bytes == 0) by (nonlinear_arith)
            requires
                rows == 0,
        ;
        assert(stripped_rows(padded, row_bytes, aligned_row_bytes, rows) =~= dense.subrange(0, 0));
    } else {
        let last = (rows - 1) as nat;
        lemma_stripped_rows_of_padded_copy(
            padded,
            dense,
            row_bytes,
            aligned_row_bytes,
            height,
            last,
        );
        assert(trimmed_row(padded, row_bytes, aligned_row_bytes, last) == dense_row(
            dense,
            row_bytes,
            last,
        ));
        assert(last * row_bytes + row_bytes == rows * row_bytes) by (nonlinear_arith)
            requires
                last + 1 == rows,
        ;
        assert(stripped_rows(padded, row_bytes, aligned_row_bytes, rows) =~= dense.subrange(
            0,
            (rows * row_bytes) as int,
        ));
    }
}

/// Padding a dense pixel buffer to aligned rows and reassembling the result
/// gives back the dense buffer, byte for byte, whatever the image size, the
/// pixel size, the alignment and the padding bytes are.
pub proof fn lemma_padding_round_trip(
    dense: Seq<u8>,
    padded: Seq<u8>,
    width: nat,
    height: nat,
    pixel_size: nat,
    alignment: nat,
)
    requires
        alignment > 0,
        is_padded_copy(
            padded,
            dense,
            row_bytes_of(width, pixel_size),
            padded_row_bytes_of(width, pixel_size, alignment),
            height,
        ),
    ensures
        reassembled(padded, width, height, pixel_size, alignment) == dense,
{
    let row_bytes = row_bytes_of(width, pixel_size);
    let aligned_row_bytes = padded_row_bytes_of(width, pixel_size, alignment);
    lemma_stripped_rows_of_padded_copy(
        padded,
        dense,
        row_bytes,
        aligned_row_bytes,
        height,
        height,
    );
    assert(height * row_bytes == row_bytes * height) by (nonlinear_arith);
    assert(dense.subrange(0, dense.len() as int) =~= dense);
    if row_bytes == aligned_row_bytes {
        // the frame is taken whole: it is the dense buffer itself
        if aligned_row_bytes > 0 {
            lemma_whole_rows_strip_to_themselves(padded, aligned_row_bytes, height);
            assert(padded.subrange(0, padded.len() as int) =~= padded);
        } else {
            assert(padded.len() == 0) by (nonlinear_arith)
                requires
                    padded.len() == aligned_row_bytes * height,
                    aligned_row_bytes == 0,
            ;
            assert(padded =~= dense);
        }
    }
}

/// Where rows carry no padding, stripping keeps every byte of the rows.
pub proof fn lemma_whole_rows_strip_to_themselves(data: Seq<u8>, row_bytes: nat, rows: nat)
    requires
        row_bytes > 0,
        rows * row_bytes <= data.len(),
    ensures
        stripped_rows(data, row_bytes, row_bytes, rows) == data.subrange(
            0,
            (rows * row_bytes) as int,
        ),
    decreases rows,
{
    if rows == 0 {
        assert(rows * row_bytes == 0) by (nonlinear_arith)
            requires
                rows == 0,
        ;
        assert(stripped_rows(data, row_bytes, row_bytes, rows) =~= data.subrange(0, 0));
    } else {
        let last = (rows - 1) as nat;
        assert(last * row_bytes + row_bytes == rows * row_bytes) by (nonlinear_arith)
            requires
                last + 1 == rows,
        ;
        lemma_whole_rows_strip_to_themselves(data, row_bytes, last);
        assert(stripped_rows(data, row_bytes, row_bytes, rows) =~= data.subrange(
            0,
            (rows * row_bytes) as int,
        ));
    }
}

/// Removes the row padding of a frame: walks the frame in steps of
/// `aligned_row_bytes`, at most `height` of them, and keeps the first
/// `row_bytes` bytes of each step.
pub fn strip_row_padding(
    data: &Vec<u8>,
    row_bytes: u64,
    aligned_row_bytes: u64,
    height: u32,
) -> (dense: Vec<u8>)
    requires
        aligned_row_bytes > 0,
    ensures
        dense@ == stripped_rows(data@, row_bytes as nat, aligned_row_bytes as nat, height as nat),
{
    let len: usize = data.len();
    let keep: u64 = if row_bytes < aligned_row_bytes {
        row_bytes
    } else {
        aligned_row_bytes
    };
    let mut dense: Vec<u8> = Vec::new();
    let mut row: u32 = 0;
    let mut start: usize = 0;
    while row < height && start < len
        invariant
            aligned_row_bytes > 0,
            len == data.len(),
            keep as nat == min_nat(row_bytes as nat, aligned_row_bytes as nat),
            row <= height,
            start <= len,
            start as nat == min_nat(row as nat * aligned_row_bytes as nat, len as nat),
            dense@ == stripped_rows(
                data@,
                row_bytes as nat,
                aligned_row_bytes as nat,
                row as nat,
            ),
        decreases height - row,
    {
        let remaining: usize = len - start;
        let take: usize = if keep < remaining as u64 {
            keep as usize
        } else {
            remaining
        };
        let ghost before = dense@;
        let mut j: usize = 0;
        while j < take
            invariant
                len == data.len(),
                start + take <= len,
                j <= take,
                dense@ == before + data@.subrange(start as int, start + j),
            decreases take - j,
        {
            dense.push(data[start + j]);
            j += 1;
            proof {
                assert(dense@ =~= before + data@.subrange(start as int, start + j));
            }
        }
        proof {
            assert(data@.subrange(start as int, start + take) == trimmed_row(
                data@,
                row_bytes as nat,
                aligned_row_bytes as nat,
                row as nat,
            ));
            assert((row + 1) as nat * aligned_row_bytes as nat == row as nat
                * aligned_row_bytes as nat + aligned_row_bytes as nat) by (nonlinear_arith);
        }
        if aligned_row_bytes < remaining as u64 {
            start = start + aligned_row_bytes as usize;
        } else {
            start = len;
        }
        row += 1;
    }
    proof {
        if row < height {
            lemma_rows_past_end_add_nothing(
                data@,
                row_bytes as nat,
                aligned_row_bytes as nat,
                row as nat,
                height as nat,
            );
        }
    }
    dense
}

/// A CPU-side image: its size in pixels, the size of one pixel in bytes, and
/// its bytes, row after row without padding.
pub struct Image {
    pub width: u32,
    pub height: u32,
    pub pixel_size: u32,
    pub data: Vec<u8>,
}

impl Image {
    /// The number of bytes that an image of this size and format holds.
    pub open spec fn dense_len(self) -> nat {
        self.width as nat * self.height as nat * self.pixel_size as nat
    }

    /// Whether the bytes cover the image exactly.
    pub open spec fn is_dense(self) -> bool {
        self.data@.len() == self.dense_len()
    }

    /// The bytes that the image holds once `frame` was received.
    pub open spec fn reassembled(self, frame: Seq<u8>, alignment: nat) -> Seq<u8>
        recommends
            alignment > 0,
    {
        reassembled(
            frame,
            self.width as nat,
            self.height as nat,
            self.pixel_size as nat,
            alignment,
        )
    }

    /// The bytes that the image holds once a drain brought `frames`, oldest
    /// first: those of the newest frame, or the old ones where the drain
    /// kept no frame.
    pub open spec fn after_frames(self, frames: Seq<Vec<u8>>, alignment: nat) -> Seq<u8>
        recommends
            alignment > 0,
    {
        match latest_frame(frames) {
            Some(frame) => self.reassembled(frame, alignment),
            None => self.data@,
        }
    }

    /// An image of the given dimensions in the pipes' pixel format, every
    /// byte zero.
    pub fn new_fill(dimensions: (u32, u32)) -> (image: Image)
        requires
            dimensions.0 as nat * dimensions.1 as nat * PIXEL_SIZE as nat <= usize::MAX,
        ensures
            image.width == dimensions.0,
            image.height == dimensions.1,
            image.pixel_size == PIXEL_SIZE,
            image.is_dense(),
            forall|i: int| 0 <= i < image.data@.len() ==> image.data@[i] == 0u8,
    {
        proof {
            assert(dimensions.0 as nat * dimensions.1 as nat <= dimensions.0 as nat
                * dimensions.1 as nat * PIXEL_SIZE as nat) by (nonlinear_arith);
        }
        let pixels: usize = (dimensions.0 as usize) * (dimensions.1 as usize);
        let len: usize = pixels * (PIXEL_SIZE as usize);
        let mut data: Vec<u8> = Vec::new();
        let mut i: usize = 0;
        while i < len
            invariant
                i <= len,
                data@.len() == i,
                forall|k: int| 0 <= k < i ==> data@[k] == 0u8,
            decreases len - i,
        {
            data.push(0u8);
            i += 1;
        }
        Image { width: dimensions.0, height: dimensions.1, pixel_size: PIXEL_SIZE, data }
    }

    /// Stores a received frame: the frame as it is where the image's rows
    /// need no padding, else the frame without its row padding.
    pub fn write_frame(&mut self, frame: Vec<u8>, alignment: u32)
        requires
            alignment > 0,
        ensures
            final(self).width == old(self).width,
            final(self).height == old(self).height,
            final(self).pixel_size == old(self).pixel_size,
            final(self).data@ == old(self).reassembled(frame@, alignment as nat),
    {
        proof {
            assert(self.width * self.pixel_size <= 0xffff_ffff * 0xffff_ffff) by (nonlinear_arith)
                requires
                    self.width <= 0xffff_ffff,
                    self.pixel_size <= 0xffff_ffff,
            ;
        }
        let row_bytes: u64 = (self.width as u64) * (self.pixel_size as u64);
        let aligned_row_bytes: u64 = padded_bytes_per_row(self.width, self.pixel_size, alignment);
        if row_bytes == aligned_row_bytes {
            self.data = frame;
        } else {
            proof {
                lemma_align_up_is_least_multiple(
                    row_bytes_of(self.width as nat, self.pixel_size as nat),
                    alignment as nat,
                );
            }
            self.data = strip_row_padding(&frame, row_bytes, aligned_row_bytes, self.height);
        }
    }

    /// Stores the newest of the drained frames, given oldest first. Older
    /// frames are dropped. Where there is no frame, the image keeps what it
    /// held.
    pub fn apply_frames(&mut self, frames: Vec<Vec<u8>>, alignment: u32)
        requires
            alignment > 0,
        ensures
            final(self).width == old(self).width,
            final(self).height == old(self).height,
            final(self).pixel_size == old(self).pixel_size,
            final(self).data@ == old(self).after_frames(frames@, alignment as nat),
    {
        let mut frames = frames;
        match frames.pop() {
            Some(frame) => {
                self.write_frame(frame, alignment);
            },
            None => {},
        }
    }
}

/// The newest of several drained frames decides alone: older frames leave no
/// trace in the image.
pub proof fn lemma_latest_frame_wins(image: Image, frames: Seq<Vec<u8>>, alignment: nat)
    requires
        alignment > 0,
        frames.len() > 0,
    ensures
        image.after_frames(frames, alignment) == image.reassembled(frames.last()@, alignment),
        image.after_frames(frames, alignment) == image.after_frames(
            seq![frames.last()],
            alignment,
        ),
{
    assert(seq![frames.last()].last() == frames.last());
}

/// The render-side end of an image pipe: the channel end that frames are
/// pushed into, and the sizes of the texture and of the readback buffer that
/// belong to it.
#[derive(Clone)]
pub struct ImageSender {
    pub sender: crossbeam_channel::Sender<Vec<u8>>,
    /// Width in pixels of the texture that is rendered to.
    pub width: u32,
    /// Height in pixels of the texture that is rendered to.
    pub height: u32,
    /// Length in bytes of one row of the readback buffer.
    pub padded_bytes_per_row: u64,
    /// Size in bytes of the readback buffer.
    pub buffer_size: u64,
}

/// The main-side end of an image pipe: the channel end that frames arrive
/// at, the image that they are written to, and the row alignment of the
/// readback buffer that they come from.
pub struct ImageReceiver {
    pub receiver: crossbeam_channel::Receiver<Vec<u8>>,
    pub receiver_image: Image,
    pub alignment: u32,
}

impl ImageSender {
    /// Width and height of the texture that is rendered to.
    pub open spec fn dimensions(self) -> (u32, u32) {
        (self.width, self.height)
    }

    /// Whether the buffer sizes are those of the texture's dimensions under
    /// the given row alignment.
    pub open spec fn describes(self, dimensions: (u32, u32), alignment: nat) -> bool {
        &&& self.dimensions() == dimensions
        &&& self.padded_bytes_per_row == padded_row_bytes_of(
            dimensions.0 as nat,
            PIXEL_SIZE as nat,
            alignment,
        )
        &&& self.buffer_size == buffer_size_of(
            dimensions.0 as nat,
            dimensions.1 as nat,
            PIXEL_SIZE as nat,
            alignment,
        )
    }
}

impl ImageReceiver {
    /// Width and height of the image that frames are written to.
    pub open spec fn dimensions(self) -> (u32, u32) {
        (self.receiver_image.width, self.receiver_image.height)
    }

    /// Whether the receiver can take frames: its row alignment is not zero.
    pub open spec fn wf(self) -> bool {
        self.alignment > 0
    }
}

/// Whether the two ends of a pipe agree: same dimensions, same row alignment.
pub open spec fn is_matched_pair(sender: ImageSender, receiver: ImageReceiver) -> bool {
    &&& receiver.wf()
    &&& sender.describes(receiver.dimensions(), receiver.alignment as nat)
    &&& receiver.receiver_image.pixel_size == PIXEL_SIZE
}

/// Calls `crossbeam_channel::unbounded` for a channel of byte vectors. The
/// contract claims nothing of the two ends.
#[verifier::external_body]
fn frame_channel() -> (ends: (
    crossbeam_channel::Sender<Vec<u8>>,
    crossbeam_channel::Receiver<Vec<u8>>,
)) {
    crossbeam_channel::unbounded()
}

/// Calls `crossbeam_channel::Receiver::try_iter` and collects what it hands
/// out, oldest first, until the channel has nothing ready. What is ready
/// depends on the senders, so the contract claims nothing of the result.
#[verifier::external_body]
fn drain_queued_frames(receiver: &crossbeam_channel::Receiver<Vec<u8>>) -> (frames: Vec<Vec<u8>>) {
    receiver.try_iter().collect()
}

/// Calls `crossbeam_channel::Sender::try_send`, which never waits, and tells
/// whether the channel took the frame. Whether it does depends on the other
/// end, so the contract claims nothing of the result.
#[verifier::external_body]
fn try_send_frame(sender: &crossbeam_channel::Sender<Vec<u8>>, frame: Vec<u8>) -> (sent: bool) {
    sender.try_send(frame).is_ok()
}

/// Creates the two ends of an image pipe for a texture of the given
/// dimensions: a sender that carries the sizes of the readback buffer, and a
/// receiver with a zero-filled image of the same dimensions.
pub fn create_image_pipe(dimensions: (u32, u32), alignment: u32) -> (pipe: (
    ImageSender,
    ImageReceiver,
))
    requires
        alignment > 0,
        dimensions.0 as nat * dimensions.1 as nat * PIXEL_SIZE as nat <= usize::MAX,
        buffer_size_of(
            dimensions.0 as nat,
            dimensions.1 as nat,
            PIXEL_SIZE as nat,
            alignment as nat,
        ) <= u64::MAX,
    ensures
        is_matched_pair(pipe.0, pipe.1),
        pipe.0.dimensions() == dimensions,
        pipe.1.dimensions() == dimensions,
        pipe.1.alignment == alignment,
        pipe.1.receiver_image.is_dense(),
        forall|i: int|
            0 <= i < pipe.1.receiver_image.data@.len() ==> pipe.1.receiver_image.data@[i] == 0u8,
{
    let (sender, receiver) = frame_channel();
    let receiver_image = Image::new_fill(dimensions);
    let image_sender = ImageSender {
        sender,
        width: dimensions.0,
        height: dimensions.1,
        padded_bytes_per_row: padded_bytes_per_row(dimensions.0, PIXEL_SIZE, alignment),
        buffer_size: buffer_size(dimensions, PIXEL_SIZE, alignment),
    };
    let image_receiver = ImageReceiver { receiver, receiver_image, alignment };
    (image_sender, image_receiver)
}

/// Whether a pipe for a texture of the given dimensions can be held: the
/// image fits the address space, and the size of the readback buffer fits 64
/// bits.
pub open spec fn pipe_fits(dimensions: (u32, u32), alignment: u32) -> bool {
    &&& dimensions.0 as nat * dimensions.1 as nat * PIXEL_SIZE as nat <= usize::MAX
    &&& buffer_size_of(
        dimensions.0 as nat,
        dimensions.1 as nat,
        PIXEL_SIZE as nat,
        alignment as nat,
    ) <= u64::MAX
}

/// Creates the two ends of an image pipe as `create_image_pipe` does, or
/// returns `None` where a pipe of these dimensions cannot be held.
pub fn checked_create_image_pipe(dimensions: (u32, u32), alignment: u32) -> (pipe: Option<
    (ImageSender, ImageReceiver),
>)
    requires
        alignment > 0,
    ensures
        pipe.is_some() <==> pipe_fits(dimensions, alignment),
        pipe.is_some() ==> {
            let (sender, receiver) = pipe.unwrap();
            &&& is_matched_pair(sender, receiver)
            &&& sender.dimensions() == dimensions
            &&& receiver.dimensions() == dimensions
            &&& receiver.alignment == alignment
            &&& receiver.receiver_image.is_dense()
            &&& forall|i: int|
                0 <= i < receiver.receiver_image.data@.len() ==> receiver.receiver_image.data@[i]
                    == 0u8
        },
{
    proof {
        assert(dimensions.0 * dimensions.1 <= 0xffff_ffff * 0xffff_ffff) by (nonlinear_arith)
            requires
                dimensions.0 <= 0xffff_ffff,
                dimensions.1 <= 0xffff_ffff,
        ;
    }
    let pixels: u64 = (dimensions.0 as u64) * (dimensions.1 as u64);
    let bytes: u128 = (pixels as u128) * 4;
    if bytes > usize::MAX as u128 {
        return None;
    }
    match crate::geometry::checked_buffer_size(dimensions, PIXEL_SIZE, alignment) {
        Some(_) => Some(create_image_pipe(dimensions, alignment)),
        None => None,
    }
}

/// Pushes the bytes read back from the GPU buffer onto the pipe's channel,
/// without waiting. A receiver that is gone is no error: the frame is
/// dropped, and the result tells so.
pub fn send_image_buffer(sender: &ImageSender, bytes: Vec<u8>) -> (sent: bool) {
    try_send_frame(&sender.sender, bytes)
}

/// Drains the receiver's channel without waiting and stores the newest frame
/// in the receiver's image; older frames are dropped. Where nothing had
/// arrived, the image keeps what it held.
///
/// Which frames are there depends on the sender, so the contract speaks of
/// some sequence of frames; `Image::apply_frames` says what each sequence
/// does.
pub fn receive_image(image_receiver: &mut ImageReceiver)
    requires
        old(image_receiver).wf(),
    ensures
        final(image_receiver).alignment == old(image_receiver).alignment,
        final(image_receiver).receiver == old(image_receiver).receiver,
        final(image_receiver).dimensions() == old(image_receiver).dimensions(),
        final(image_receiver).receiver_image.pixel_size == old(
            image_receiver,
        ).receiver_image.pixel_size,
        exists|frames: Seq<Vec<u8>>|
            final(image_receiver).receiver_image.data@ == old(
                image_receiver,
            ).receiver_image.after_frames(frames, old(image_receiver).alignment as nat),
{
    let frames = drain_queued_frames(&image_receiver.receiver);
    let alignment: u32 = image_receiver.alignment;
    let ghost drained = frames@;
    image_receiver.receiver_image.apply_frames(frames, alignment);
    proof {
        assert(image_receiver.receiver_image.data@ == old(
            image_receiver,
        ).receiver_image.after_frames(drained, alignment as nat));
    }
}

} // verus!
