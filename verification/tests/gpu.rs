use plurimus_doom::doom_thread::SharedFrame;
use plurimus_doom::gpu::write_rgba;

#[test]
fn xrgb_pixels_upload_as_rgba_bytes() {
    let mut data = vec![0, 0, 0, u8::MAX];
    let frame = SharedFrame {
        pixels: vec![0x00ff_8040],
        width: 1,
        height: 1,
        version: 1,
    };

    write_rgba(&frame, &mut data);

    assert_eq!(&data[..4], &[0xff, 0x80, 0x40, 0xff]);
}

#[test]
fn high_byte_is_dropped_and_alpha_is_opaque() {
    let mut data = Vec::new();
    let frame = SharedFrame { pixels: vec![0xab12_3456, 0x0000_0000], width: 2, height: 1, version: 3 };
    write_rgba(&frame, &mut data);
    assert_eq!(data, [0x12, 0x34, 0x56, 255, 0, 0, 0, 255]);
}

#[test]
fn upload_replaces_the_old_bytes() {
    let mut data = vec![7; 64];
    let frame = SharedFrame { pixels: vec![0x0000_ff00], width: 1, height: 1, version: 1 };
    write_rgba(&frame, &mut data);
    assert_eq!(data, [0, 255, 0, 255]);
}

#[test]
fn only_the_frame_area_is_uploaded() {
    let mut data = Vec::new();
    let frame = SharedFrame { pixels: vec![1, 2, 3], width: 2, height: 1, version: 1 };
    write_rgba(&frame, &mut data);
    assert_eq!(data, [0, 0, 1, 255, 0, 0, 2, 255]);
    let empty = SharedFrame::default();
    write_rgba(&empty, &mut data);
    assert!(data.is_empty());
}
