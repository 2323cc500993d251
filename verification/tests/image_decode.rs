use memclean::ui::image::{decode_png, frame_pixels};

fn encode_rgba(width: u32, height: u32, data: &[u8]) -> Vec<u8> {
    let mut out = Vec::new();
    {
        let mut enc = png::Encoder::new(&mut out, width, height);
        enc.set_color(png::ColorType::Rgba);
        enc.set_depth(png::BitDepth::Eight);
        let mut writer = enc.write_header().expect("header");
        writer.write_image_data(data).expect("data");
    }
    out
}

#[test]
fn decode_png_converts_rgba_to_bitmap_pixels() {
    let file = encode_rgba(2, 1, &[1, 2, 3, 4, 5, 6, 7, 8]);
    let img = decode_png(&file).expect("a valid PNG decodes");
    assert_eq!(img.width, 2);
    assert_eq!(img.height, 1);
    assert_eq!(img.pixels, vec![0x0401_0203, 0x0805_0607]);
}

#[test]
fn decode_png_two_rows() {
    let file = encode_rgba(1, 2, &[0xFF, 0, 0, 0xFF, 0, 0, 0xFF, 0x80]);
    let img = decode_png(&file).expect("a valid PNG decodes");
    assert_eq!((img.width, img.height), (1, 2));
    assert_eq!(img.pixels, vec![0xFFFF_0000, 0x8000_00FF]);
}

#[test]
fn decode_png_rejects_garbage() {
    assert!(decode_png(&[0u8, 1, 2, 3, 4, 5, 6, 7]).is_none());
    assert!(decode_png(&[]).is_none());
}

#[test]
fn decode_png_rejects_truncated_file() {
    let file = encode_rgba(2, 2, &[9u8; 16]);
    assert!(decode_png(&file[..file.len() / 2]).is_none());
}

#[test]
fn frame_pixels_limits_to_image_size() {
    // Two rows of 8 bytes for a 1 x 2 image: only width * height groups of
    // four bytes become pixels.
    let buf: Vec<u8> = (0u8..16).collect();
    let img = frame_pixels(1, 2, 8, &buf).expect("fits");
    assert_eq!(img.pixels, vec![0x0300_0102, 0x0704_0506]);
}

#[test]
fn frame_pixels_rejects_short_buffer() {
    assert!(frame_pixels(2, 2, 8, &[0u8; 15]).is_none());
    assert!(frame_pixels(2, 2, usize::MAX, &[0u8; 16]).is_none());
}
