use rustwlc::render::{pixel_buffer_len, response_buffer_len, HEADER_SIZE};
use rustwlc::{read_pixels, wlc_pixel_format, write_pixels, Call, Geometry, Point, Size};

fn rectangle(w: u32, h: u32) -> Geometry {
    Geometry { origin: Point { x: 0, y: 0 }, size: Size { w, h } }
}

#[test]
fn read_pixels_splits_header_and_pixels() {
    let geometry = rectangle(2, 2);
    let response: Vec<u8> = (0u8..25).collect();
    assert_eq!(response_buffer_len(&geometry), Some(response.len()));
    let (header, pixels) = read_pixels(wlc_pixel_format::WLC_RGBA8888, geometry, response.clone());
    assert_eq!(header, [0, 1, 2, 3, 4, 5, 6, 7, 8]);
    assert_eq!(&header[..], &response[..9]);
    assert_eq!(pixels.len(), 16);
    assert_eq!(pixels, (9u8..25).collect::<Vec<u8>>());
    assert_eq!(&pixels[..], &response[9..]);
}

#[test]
fn read_pixels_of_nothing_gives_the_header_alone() {
    let geometry = rectangle(0, 7);
    let response = vec![9u8, 8, 7, 6, 5, 4, 3, 2, 1];
    let (header, pixels) = read_pixels(wlc_pixel_format::WLC_RGBA8888, geometry, response);
    assert_eq!(header, [9, 8, 7, 6, 5, 4, 3, 2, 1]);
    assert!(pixels.is_empty());
}

#[test]
fn the_header_is_nine_bytes() {
    assert_eq!(HEADER_SIZE, 9);
}

#[test]
fn buffer_sizes_follow_the_rectangle() {
    assert_eq!(pixel_buffer_len(&rectangle(2, 2)), Some(16));
    assert_eq!(response_buffer_len(&rectangle(2, 2)), Some(25));
    assert_eq!(pixel_buffer_len(&rectangle(0, 0)), Some(0));
    assert_eq!(response_buffer_len(&rectangle(0, 0)), Some(9));
    assert_eq!(pixel_buffer_len(&rectangle(u32::MAX, 0)), Some(0));
    assert_eq!(pixel_buffer_len(&rectangle(1920, 1080)), Some(1920 * 1080 * 4));
    assert_eq!(response_buffer_len(&rectangle(1920, 1080)), Some(9 + 1920 * 1080 * 4));
    assert_eq!(pixel_buffer_len(&rectangle(3, 5)), Some(60));
}

#[test]
fn buffer_sizes_beyond_the_machine_are_none() {
    // 4 * (2^32 - 1)^2 is more than a word of 64 bits holds.
    assert_eq!(pixel_buffer_len(&rectangle(u32::MAX, u32::MAX)), None);
    assert_eq!(response_buffer_len(&rectangle(u32::MAX, u32::MAX)), None);
}

#[test]
fn write_pixels_hands_the_rectangle_on() {
    let geometry = Geometry { origin: Point { x: -5, y: 70000 }, size: Size { w: 2, h: 3 } };
    let data = [0u8; 24];
    assert_eq!(
        write_pixels(wlc_pixel_format::WLC_RGBA8888, geometry, &data),
        Call::PixelsWrite { format: wlc_pixel_format::WLC_RGBA8888, geometry }
    );
}
