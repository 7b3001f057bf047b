use bevy_ratatui_camera::camera::{
    double_dimensions, terminal_dimensions, LuminanceConfig, RatatuiCamera, RatatuiCameraStrategy,
};
use bevy_ratatui_camera::camera_edge_detection::{EdgeCharacters, RatatuiCameraEdgeDetection};
use bevy_ratatui_camera::camera_image_pipe::{
    checked_create_image_pipe, create_image_pipe, send_image_buffer, Image,
};
use bevy_ratatui_camera::camera_readback::{
    autoresize_ratatui_camera_system, create_ratatui_camera_widget, CameraReadback, ReadbackError,
};
use bevy_ratatui_camera::pixels::{try_into_dynamic, ImageError, Rgba, RgbaImage};

fn pipe_dimensions(readback: &CameraReadback) -> Option<(u32, u32)> {
    readback.camera_pipe.as_ref().map(|pipe| {
        assert_eq!((pipe.sender.width, pipe.sender.height), (
            pipe.receiver.receiver_image.width,
            pipe.receiver.receiver_image.height,
        ));
        (pipe.receiver.receiver_image.width, pipe.receiver.receiver_image.height)
    })
}

fn sobel_dimensions(readback: &CameraReadback) -> Option<(u32, u32)> {
    readback
        .sobel_pipe
        .as_ref()
        .map(|pipe| (pipe.receiver.receiver_image.width, pipe.receiver.receiver_image.height))
}

#[test]
fn camera_defaults_and_builders() {
    let camera = RatatuiCamera::default();
    assert_eq!(camera.dimensions, (256, 256));
    assert!(!camera.autoresize);
    let camera = RatatuiCamera::new((80, 48));
    assert_eq!(camera.dimensions, (80, 48));
    assert!(!camera.autoresize);
    let camera = RatatuiCamera::autoresize();
    assert_eq!(camera.dimensions, (256, 256));
    assert!(camera.autoresize);
    assert!(!camera.autoprint);
    let camera = camera.with_dimensions((10, 20)).with_autoresize(false).with_autoprint(true);
    assert_eq!(camera.dimensions, (10, 20));
    assert!(!camera.autoresize);
    assert!(camera.autoprint);
    assert!(camera.with_dimensions((1, 2)).autoprint);
    assert!(!camera.with_autoprint(false).autoprint);
}

#[test]
fn strategy_defaults_and_ramps() {
    assert!(matches!(RatatuiCameraStrategy::default(), RatatuiCameraStrategy::HalfBlocks));
    let config = LuminanceConfig::default();
    assert_eq!(config.luminance_scale, 10_000);
    assert_eq!(
        config.luminance_characters,
        vec![' ', '⠂', '⠒', '⠖', '⠶', '⠷', '⠿', '⡿', '⣿']
    );
    match RatatuiCameraStrategy::luminance_braille() {
        RatatuiCameraStrategy::Luminance(config) => {
            assert_eq!(config.luminance_characters.len(), 9);
            assert_eq!(config.luminance_characters[8], '⣿');
            assert_eq!(config.luminance_scale, 10_000);
        }
        _ => panic!("not a luminance strategy"),
    }
    match RatatuiCameraStrategy::luminance_misc() {
        RatatuiCameraStrategy::Luminance(config) => {
            assert_eq!(
                config.luminance_characters,
                vec![' ', '.', ':', '+', '=', '!', '*', '?', '#', '%', '&', '@']
            );
        }
        _ => panic!("not a luminance strategy"),
    }
    match RatatuiCameraStrategy::luminance_shading() {
        RatatuiCameraStrategy::Luminance(config) => {
            assert_eq!(config.luminance_characters, vec![' ', '░', '▒', '▓', '█']);
        }
        _ => panic!("not a luminance strategy"),
    }
}

#[test]
fn edge_detection_defaults() {
    let config = RatatuiCameraEdgeDetection::default();
    assert_eq!(config.thickness, 2000);
    assert!(config.color_enabled && config.depth_enabled && config.normal_enabled);
    assert_eq!(config.color_threshold, 400);
    assert_eq!(config.depth_threshold, 100);
    assert_eq!(config.normal_threshold, 2500);
    assert_eq!(config.edge_color, None);
    assert_eq!(
        config.edge_characters,
        EdgeCharacters::Directional {
            vertical: '|',
            horizontal: '―',
            forward_diagonal: '⟋',
            backward_diagonal: '⟍',
        }
    );
    assert_eq!(EdgeCharacters::default(), config.edge_characters);
}

#[test]
fn default_conversion_gives_two_pixels_per_cell_each_way() {
    assert_eq!(terminal_dimensions(80, 24), (80, 24));
    assert_eq!(terminal_dimensions(0, 0), (0, 0));
    assert_eq!(terminal_dimensions(u16::MAX, u16::MAX), (65535, 65535));
    assert_eq!(double_dimensions((80, 24)), (160, 48));
    assert_eq!(double_dimensions((u32::MAX, 3)), (u32::MAX, 6));
}

#[test]
fn autoresize_asks_the_conversion_only_for_following_cameras() {
    let fixed = RatatuiCamera::new((10, 10));
    assert_eq!(autoresize_ratatui_camera_system(&fixed, 80, 24, double_dimensions), None);
    let following = RatatuiCamera::autoresize();
    assert_eq!(
        autoresize_ratatui_camera_system(&following, 80, 24, double_dimensions),
        Some((160, 48))
    );
    assert_eq!(
        autoresize_ratatui_camera_system(&following, 80, 24, |(w, h): (u32, u32)| (w * 4, h * 3)),
        Some((320, 72))
    );
}

#[test]
fn marker_insert_provisions_one_pipe() {
    let mut readback = CameraReadback::new(256);
    assert_eq!(pipe_dimensions(&readback), None);
    assert_eq!(readback.insert_camera_readback_components(RatatuiCamera::new((100, 50))), Ok(()));
    assert_eq!(pipe_dimensions(&readback), Some((100, 50)));
    assert_eq!(sobel_dimensions(&readback), None);
    assert_eq!(readback.camera.unwrap().dimensions, (100, 50));
    let pipe = readback.camera_pipe.as_ref().unwrap();
    assert_eq!(pipe.sender.buffer_size, 512 * 50);
    assert_eq!(pipe.receiver.alignment, 256);
}

#[test]
fn two_resizes_leave_one_pipe_of_the_last_dimensions() {
    let mut readback = CameraReadback::new(256);
    readback.insert_camera_readback_components(RatatuiCamera::autoresize()).unwrap();
    readback.insert_edge_detection_readback_components().unwrap();
    let camera = readback.camera.unwrap();
    let first = autoresize_ratatui_camera_system(&camera, 80, 24, double_dimensions).unwrap();
    assert_eq!(readback.resize(first), Ok(()));
    assert_eq!(pipe_dimensions(&readback), Some((160, 48)));
    // a frame of the old size is still under way when the second resize comes
    let old_sender = readback.camera_pipe.as_ref().unwrap().sender.clone();
    let second = autoresize_ratatui_camera_system(&camera, 120, 40, double_dimensions).unwrap();
    assert_eq!(readback.resize(second), Ok(()));
    assert_eq!(pipe_dimensions(&readback), Some((240, 80)));
    assert_eq!(sobel_dimensions(&readback), Some((240, 80)));
    assert_eq!(readback.camera.unwrap().dimensions, (240, 80));
    assert!(readback.camera.unwrap().autoresize);
    assert!(!readback.camera.unwrap().autoprint);
    let pipe = readback.camera_pipe.as_ref().unwrap();
    assert_eq!(pipe.receiver.receiver_image.data.len(), 240 * 80 * 4);
    assert_eq!(pipe.sender.buffer_size, 1024 * 80);
    // the old pipe is gone: its sender reaches nobody
    assert!(!send_image_buffer(&old_sender, vec![1; 16]));
    readback.receive_camera_images();
    assert_eq!(readback.camera_pipe.as_ref().unwrap().receiver.receiver_image.data, vec![0; 240 * 80 * 4]);
}

#[test]
fn resize_without_marker_changes_nothing() {
    let mut readback = CameraReadback::new(64);
    assert_eq!(readback.resize((10, 10)), Ok(()));
    assert_eq!(pipe_dimensions(&readback), None);
    assert!(readback.camera.is_none());
}

#[test]
fn edge_marker_adds_and_removes_the_second_pipe() {
    let mut readback = CameraReadback::new(256);
    // without the camera marker nothing is made
    assert_eq!(readback.insert_edge_detection_readback_components(), Ok(false));
    assert_eq!(sobel_dimensions(&readback), None);
    readback.insert_camera_readback_components(RatatuiCamera::new((32, 16))).unwrap();
    assert_eq!(readback.insert_edge_detection_readback_components(), Ok(true));
    assert_eq!(sobel_dimensions(&readback), Some((32, 16)));
    assert_eq!(pipe_dimensions(&readback), Some((32, 16)));
    // a changed marker replaces both pipes
    readback.insert_camera_readback_components(RatatuiCamera::new((8, 4))).unwrap();
    assert_eq!(sobel_dimensions(&readback), Some((8, 4)));
    assert_eq!(pipe_dimensions(&readback), Some((8, 4)));
    readback.handle_ratatui_edge_detection_removal();
    assert_eq!(sobel_dimensions(&readback), None);
    assert_eq!(pipe_dimensions(&readback), Some((8, 4)));
}

#[test]
fn marker_removal_drops_the_pipes() {
    let mut readback = CameraReadback::new(256);
    readback.insert_camera_readback_components(RatatuiCamera::new((32, 16))).unwrap();
    readback.insert_edge_detection_readback_components().unwrap();
    let sender = readback.camera_pipe.as_ref().unwrap().sender.clone();
    readback.handle_ratatui_camera_removal();
    assert_eq!(pipe_dimensions(&readback), None);
    assert_eq!(sobel_dimensions(&readback), None);
    assert!(readback.camera.is_none());
    // a send that races with the removal fails quietly
    assert!(!send_image_buffer(&sender, vec![0; 8]));
}

#[test]
fn oversized_pipes_are_refused() {
    assert!(checked_create_image_pipe((u32::MAX, u32::MAX), 256).is_none());
    let mut readback = CameraReadback::new(256);
    assert_eq!(
        readback.insert_camera_readback_components(RatatuiCamera::new((u32::MAX, u32::MAX))),
        Err(ReadbackError::TooLarge)
    );
    assert_eq!(pipe_dimensions(&readback), None);
    readback.insert_camera_readback_components(RatatuiCamera::new((4, 4))).unwrap();
    assert_eq!(readback.resize((u32::MAX, u32::MAX)), Err(ReadbackError::TooLarge));
    assert_eq!(pipe_dimensions(&readback), Some((4, 4)));
}

#[test]
fn received_frames_reach_the_widget() {
    let mut readback = CameraReadback::new(256);
    readback.insert_camera_readback_components(RatatuiCamera::new((2, 2))).unwrap();
    readback.insert_edge_detection_readback_components().unwrap();
    let mut frame = vec![0u8; 512];
    frame[..8].copy_from_slice(&[1, 2, 3, 4, 5, 6, 7, 8]);
    frame[256..264].copy_from_slice(&[9, 10, 11, 12, 13, 14, 15, 16]);
    assert!(send_image_buffer(&readback.camera_pipe.as_ref().unwrap().sender, frame));
    readback.receive_camera_images();
    let widget = create_ratatui_camera_widget(
        &readback.camera_pipe.as_ref().unwrap().receiver,
        readback.sobel_pipe.as_ref().map(|pipe| &pipe.receiver),
        RatatuiCameraStrategy::HalfBlocks,
        None,
    )
    .unwrap();
    assert_eq!((widget.camera_image.width, widget.camera_image.height), (2, 2));
    assert_eq!(
        widget.camera_image.data,
        vec![1, 2, 3, 4, 5, 6, 7, 8, 9, 10, 11, 12, 13, 14, 15, 16]
    );
    assert_eq!(widget.camera_image.get_pixel(1, 1), Rgba { r: 13, g: 14, b: 15, a: 16 });
    assert_eq!(widget.sobel_image.unwrap().data, vec![0; 16]);
}

#[test]
fn malformed_images_are_reported() {
    let (_sender, mut receiver) = create_image_pipe((2, 2), 256);
    receiver.receiver_image.data = vec![0; 15];
    let result = create_ratatui_camera_widget(&receiver, None, RatatuiCameraStrategy::HalfBlocks, None);
    assert_eq!(result.err(), Some(ImageError::BufferTooSmall));
    receiver.receiver_image.data = vec![0; 16];
    receiver.receiver_image.pixel_size = 8;
    let result = create_ratatui_camera_widget(&receiver, None, RatatuiCameraStrategy::HalfBlocks, None);
    assert_eq!(result.err(), Some(ImageError::UnsupportedPixelSize));

    let image = Image { width: 1, height: 1, pixel_size: 4, data: vec![1, 2, 3, 4, 5, 6] };
    let rgba = try_into_dynamic(image).unwrap();
    assert_eq!(rgba.data, vec![1, 2, 3, 4]);
    assert!(RgbaImage::from_raw(1, 1, vec![1, 2, 3, 4, 5]).is_none());
    assert!(RgbaImage::from_raw(1, 1, vec![1, 2, 3]).is_none());
}

#[test]
fn resize_keeps_the_aspect_ratio() {
    let mut data = Vec::new();
    for y in 0..4u8 {
        for x in 0..8u8 {
            data.extend_from_slice(&[x * 10, y * 10, 0, 255]);
        }
    }
    let image = RgbaImage::from_raw(8, 4, data.clone()).unwrap();
    let same = image.resize(8, 4).unwrap();
    assert_eq!((same.width, same.height), (8, 4));
    assert_eq!(same.data, data);
    let half = image.resize(4, 100).unwrap();
    assert_eq!((half.width, half.height), (4, 2));
    assert_eq!(half.data.len(), 4 * 2 * 4);
    let tiny = image.resize(0, 0).unwrap();
    assert_eq!((tiny.width, tiny.height), (1, 1));
    let empty = RgbaImage::from_raw(0, 0, Vec::new()).unwrap();
    let scaled = empty.resize(0, 0).unwrap();
    assert_eq!((scaled.width, scaled.height), (0, 0));
}

#[test]
fn resize_events_reach_only_cameras_that_follow_the_terminal() {
    let mut fixed = CameraReadback::new(256);
    fixed.insert_camera_readback_components(RatatuiCamera::new((10, 10))).unwrap();
    assert_eq!(fixed.handle_resize(80, 24, double_dimensions), Ok(false));
    assert_eq!(pipe_dimensions(&fixed), Some((10, 10)));

    let mut unmarked = CameraReadback::new(256);
    assert_eq!(unmarked.handle_resize(80, 24, double_dimensions), Ok(false));
    assert_eq!(pipe_dimensions(&unmarked), None);

    let mut following = CameraReadback::new(256);
    following.insert_camera_readback_components(RatatuiCamera::autoresize()).unwrap();
    assert_eq!(following.handle_resize(80, 24, double_dimensions), Ok(true));
    assert_eq!(pipe_dimensions(&following), Some((160, 48)));
    assert_eq!(following.handle_resize(100, 30, |(w, h): (u32, u32)| (w * 4, h * 3)), Ok(true));
    assert_eq!(pipe_dimensions(&following), Some((400, 90)));
    assert_eq!(following.camera.unwrap().dimensions, (400, 90));
    assert_eq!(
        following.handle_resize(1, 1, |_: (u32, u32)| (u32::MAX, u32::MAX)),
        Err(ReadbackError::TooLarge)
    );
    assert_eq!(pipe_dimensions(&following), Some((400, 90)));
    assert!(following.is_well_formed());
}

#[test]
fn well_formedness_is_noticed() {
    let mut readback = CameraReadback::new(256);
    assert!(readback.is_well_formed());
    readback.insert_camera_readback_components(RatatuiCamera::new((4, 4))).unwrap();
    assert!(readback.is_well_formed());
    readback.camera = Some(RatatuiCamera::new((5, 4)));
    assert!(!readback.is_well_formed());
    readback.camera = None;
    assert!(!readback.is_well_formed());
    readback.camera = Some(RatatuiCamera::new((4, 4)));
    readback.camera_pipe.as_mut().unwrap().sender.buffer_size += 1;
    assert!(!readback.is_well_formed());
    let image = RgbaImage { width: 2, height: 2, data: vec![0; 15] };
    assert!(!image.is_well_formed());
}
