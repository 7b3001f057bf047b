use bevy_ratatui_camera::camera_image_pipe::{
    create_image_pipe, receive_image, send_image_buffer, strip_row_padding, Image,
};
use bevy_ratatui_camera::geometry::{
    align_copy_bytes_per_row, buffer_size, checked_align_copy_bytes_per_row, checked_buffer_size,
    padded_bytes_per_row,
};

fn pad_rows(dense: &[u8], row_bytes: usize, aligned: usize, height: usize, fill: u8) -> Vec<u8> {
    let mut padded = Vec::new();
    for row in 0..height {
        padded.extend_from_slice(&dense[row * row_bytes..(row + 1) * row_bytes]);
        for _ in row_bytes..aligned {
            padded.push(fill);
        }
    }
    padded
}

fn dense_pattern(len: usize) -> Vec<u8> {
    (0..len).map(|i| (i * 7 + 3) as u8).collect()
}

#[test]
fn align_rounds_up_to_the_next_multiple() {
    assert_eq!(align_copy_bytes_per_row(0, 256), 0);
    assert_eq!(align_copy_bytes_per_row(1, 256), 256);
    assert_eq!(align_copy_bytes_per_row(256, 256), 256);
    assert_eq!(align_copy_bytes_per_row(257, 256), 512);
    assert_eq!(align_copy_bytes_per_row(100, 64), 128);
    assert_eq!(align_copy_bytes_per_row(5, 1), 5);
}

#[test]
fn checked_align_reports_overflow() {
    assert_eq!(checked_align_copy_bytes_per_row(usize::MAX, 256), None);
    assert_eq!(checked_align_copy_bytes_per_row(usize::MAX - 255, 256), Some(usize::MAX - 255));
    assert_eq!(checked_align_copy_bytes_per_row(1000, 256), Some(1024));
}

#[test]
fn padded_row_and_buffer_size_follow_the_formula() {
    assert_eq!(padded_bytes_per_row(256, 4, 256), 1024);
    assert_eq!(padded_bytes_per_row(100, 4, 256), 512);
    assert_eq!(padded_bytes_per_row(3, 4, 256), 256);
    assert_eq!(padded_bytes_per_row(0, 4, 256), 0);
    assert_eq!(buffer_size((100, 50), 4, 256), 512 * 50);
    assert_eq!(buffer_size((256, 256), 4, 256), 1024 * 256);
    assert_eq!(buffer_size((100, 0), 4, 256), 0);
    assert_eq!(checked_buffer_size((100, 50), 4, 64), Some(448 * 50));
    assert_eq!(checked_buffer_size((u32::MAX, u32::MAX), u32::MAX, 256), None);
}

#[test]
fn strip_undoes_row_padding() {
    for &(width, height, bpp, alignment) in
        &[(3usize, 2usize, 4usize, 256usize), (5, 7, 4, 64), (1, 1, 4, 256), (10, 3, 3, 16), (64, 2, 4, 256)]
    {
        let row_bytes = width * bpp;
        let aligned = align_copy_bytes_per_row(row_bytes, alignment);
        let dense = dense_pattern(row_bytes * height);
        let padded = pad_rows(&dense, row_bytes, aligned, height, 0xEE);
        let out = strip_row_padding(&padded, row_bytes as u64, aligned as u64, height as u32);
        assert_eq!(out, dense);
    }
}

#[test]
fn strip_discards_rows_beyond_height() {
    let dense = dense_pattern(12 * 3);
    let padded = pad_rows(&dense, 12, 16, 3, 0xAA);
    let out = strip_row_padding(&padded, 12, 16, 2);
    assert_eq!(out, dense[..24].to_vec());
}

#[test]
fn strip_trims_a_short_last_row() {
    let data: Vec<u8> = (0u8..20).collect();
    // rows start at 0, 8, 16; the last row has only 4 bytes
    let out = strip_row_padding(&data, 6, 8, 5);
    let mut expected: Vec<u8> = Vec::new();
    expected.extend_from_slice(&data[0..6]);
    expected.extend_from_slice(&data[8..14]);
    expected.extend_from_slice(&data[16..20]);
    assert_eq!(out, expected);
}

#[test]
fn strip_of_empty_frame_is_empty() {
    assert_eq!(strip_row_padding(&Vec::new(), 12, 16, 4), Vec::<u8>::new());
    assert_eq!(strip_row_padding(&vec![1, 2, 3], 12, 16, 0), Vec::<u8>::new());
}

#[test]
fn new_pipe_has_matching_ends() {
    let (sender, receiver) = create_image_pipe((100, 50), 256);
    assert_eq!((sender.width, sender.height), (100, 50));
    assert_eq!(sender.padded_bytes_per_row, 512);
    assert_eq!(sender.buffer_size, 512 * 50);
    assert_eq!(receiver.receiver_image.width, 100);
    assert_eq!(receiver.receiver_image.height, 50);
    assert_eq!(receiver.receiver_image.pixel_size, 4);
    assert_eq!(receiver.alignment, 256);
    assert_eq!(receiver.receiver_image.data, vec![0u8; 100 * 50 * 4]);
    assert!(receiver.receiver.is_empty());
}

#[test]
fn receive_keeps_the_image_when_nothing_arrived() {
    let (_sender, mut receiver) = create_image_pipe((2, 2), 256);
    receiver.receiver_image.data = dense_pattern(16);
    receive_image(&mut receiver);
    assert_eq!(receiver.receiver_image.data, dense_pattern(16));
}

#[test]
fn receive_strips_padding_of_the_received_frame() {
    let (sender, mut receiver) = create_image_pipe((3, 2), 256);
    let dense = dense_pattern(3 * 2 * 4);
    let padded = pad_rows(&dense, 12, 256, 2, 0x55);
    assert_eq!(padded.len() as u64, sender.buffer_size);
    assert!(send_image_buffer(&sender, padded));
    receive_image(&mut receiver);
    assert_eq!(receiver.receiver_image.data, dense);
    assert_eq!((receiver.receiver_image.width, receiver.receiver_image.height), (3, 2));
}

#[test]
fn receive_copies_an_unpadded_frame_whole() {
    let (sender, mut receiver) = create_image_pipe((64, 2), 256);
    let dense = dense_pattern(64 * 2 * 4);
    assert!(send_image_buffer(&sender, dense.clone()));
    receive_image(&mut receiver);
    assert_eq!(receiver.receiver_image.data, dense);
}

#[test]
fn latest_frame_wins_and_channel_is_drained() {
    let (sender, mut receiver) = create_image_pipe((3, 2), 256);
    let mut last = Vec::new();
    for n in 0..5u8 {
        let dense: Vec<u8> = (0..24u8).map(|i| i.wrapping_mul(3).wrapping_add(n)).collect();
        let padded = pad_rows(&dense, 12, 256, 2, n);
        assert!(send_image_buffer(&sender, padded));
        last = dense;
    }
    assert_eq!(receiver.receiver.len(), 5);
    receive_image(&mut receiver);
    assert_eq!(receiver.receiver_image.data, last);
    assert!(receiver.receiver.is_empty());
    receive_image(&mut receiver);
    assert_eq!(receiver.receiver_image.data, last);
}

#[test]
fn an_empty_newest_frame_is_a_frame_too() {
    let (sender, mut receiver) = create_image_pipe((3, 2), 256);
    assert!(send_image_buffer(&sender, pad_rows(&dense_pattern(24), 12, 256, 2, 1)));
    assert!(send_image_buffer(&sender, Vec::new()));
    receive_image(&mut receiver);
    assert_eq!(receiver.receiver_image.data, Vec::<u8>::new());
    assert!(receiver.receiver.is_empty());
    // an image without rows takes the empty frame of its empty buffer
    let (sender, mut receiver) = create_image_pipe((3, 0), 256);
    assert_eq!(sender.buffer_size, 0);
    receiver.receiver_image.data = vec![1, 2, 3];
    assert!(send_image_buffer(&sender, Vec::new()));
    receive_image(&mut receiver);
    assert_eq!(receiver.receiver_image.data, Vec::<u8>::new());
}

#[test]
fn send_to_a_dropped_receiver_fails_quietly() {
    let (sender, receiver) = create_image_pipe((2, 2), 256);
    drop(receiver);
    assert!(!send_image_buffer(&sender, vec![0; 16]));
}

#[test]
fn cloned_sender_feeds_the_same_channel() {
    let (sender, mut receiver) = create_image_pipe((64, 1), 256);
    let other = sender.clone();
    assert_eq!((other.width, other.height, other.buffer_size), (64, 1, 256));
    assert!(send_image_buffer(&other, dense_pattern(256)));
    receive_image(&mut receiver);
    assert_eq!(receiver.receiver_image.data, dense_pattern(256));
}

#[test]
fn apply_frames_takes_the_last_of_the_list() {
    let mut image = Image::new_fill((2, 1));
    image.apply_frames(vec![vec![1; 8], vec![2; 8], vec![3; 8]], 8);
    assert_eq!(image.data, vec![3; 8]);
    image.apply_frames(Vec::new(), 8);
    assert_eq!(image.data, vec![3; 8]);
    image.write_frame(vec![9, 9, 9, 9, 9, 9, 9, 9, 0, 0, 0, 0, 0, 0, 0, 0], 16);
    assert_eq!(image.data, vec![9; 8]);
}
