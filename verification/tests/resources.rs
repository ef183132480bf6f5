use embercore_client_lib::game::camera_direction;
use embercore_client_lib::resources::chunk::{
    chunk_extent, chunk_origins, chunk_tiles, chunks_along, try_chunk_tiles, CHUNK_SIZE,
};
use embercore_client_lib::resources::error::{BitDepth, ColorType, Error};
use embercore_client_lib::resources::texture::OutputInfo;

fn info(color_type: ColorType, bit_depth: BitDepth) -> OutputInfo {
    OutputInfo { width: 64, height: 32, color_type, bit_depth }
}

#[test]
fn samples_by_colour_type() {
    assert_eq!(ColorType::Grayscale.samples(), 1);
    assert_eq!(ColorType::RGB.samples(), 3);
    assert_eq!(ColorType::Indexed.samples(), 1);
    assert_eq!(ColorType::GrayscaleAlpha.samples(), 2);
    assert_eq!(ColorType::RGBA.samples(), 4);
}

#[test]
fn colour_images_of_eight_bits_are_textures() {
    assert_eq!(info(ColorType::RGB, BitDepth::Eight).check(), Ok(()));
    assert_eq!(info(ColorType::RGBA, BitDepth::Eight).check(), Ok(()));
}

#[test]
fn other_colour_types_are_refused() {
    for color_type in [ColorType::Grayscale, ColorType::Indexed, ColorType::GrayscaleAlpha] {
        assert_eq!(
            info(color_type, BitDepth::Eight).check(),
            Err(Error::UnsupportedColorType(color_type))
        );
    }
}

#[test]
fn other_bit_depths_are_refused() {
    for bit_depth in [BitDepth::One, BitDepth::Two, BitDepth::Four, BitDepth::Sixteen] {
        assert_eq!(
            info(ColorType::RGBA, bit_depth).check(),
            Err(Error::UnsupportedBitDepth(bit_depth))
        );
    }
}

#[test]
fn the_colour_type_is_judged_before_the_bit_depth() {
    assert_eq!(
        info(ColorType::Indexed, BitDepth::Four).check(),
        Err(Error::UnsupportedColorType(ColorType::Indexed))
    );
}

#[test]
fn buffer_holds_every_sample() {
    assert_eq!(info(ColorType::RGBA, BitDepth::Eight).buffer_len(), Some(64 * 32 * 4));
    assert_eq!(info(ColorType::RGB, BitDepth::Eight).buffer_len(), Some(64 * 32 * 3));
    let empty =
        OutputInfo { width: 0, height: 9, color_type: ColorType::RGBA, bit_depth: BitDepth::Eight };
    assert_eq!(empty.buffer_len(), Some(0));
}

#[test]
fn an_image_of_more_pixels_than_32_bits_count_has_no_size() {
    let huge = OutputInfo {
        width: 65536,
        height: 65536,
        color_type: ColorType::RGB,
        bit_depth: BitDepth::Eight,
    };
    assert_eq!(huge.buffer_len(), None);
    let largest = OutputInfo {
        width: 65535,
        height: 65537,
        color_type: ColorType::Grayscale,
        bit_depth: BitDepth::Eight,
    };
    assert_eq!(largest.buffer_len(), Some(4294967295));
}

#[test]
fn chunks_cover_the_length() {
    assert_eq!(CHUNK_SIZE, 16);
    assert_eq!(chunks_along(0), 0);
    assert_eq!(chunks_along(1), 1);
    assert_eq!(chunks_along(16), 1);
    assert_eq!(chunks_along(17), 2);
    assert_eq!(chunks_along(usize::MAX), usize::MAX / 16 + 1);
}

#[test]
fn the_last_chunk_holds_what_is_left() {
    assert_eq!(chunk_extent(0, 40), 16);
    assert_eq!(chunk_extent(16, 40), 16);
    assert_eq!(chunk_extent(32, 40), 8);
    assert_eq!(chunk_extent(40, 40), 0);
    assert_eq!(chunk_extent(usize::MAX - 3, usize::MAX), 3);
}

#[test]
fn origins_go_row_by_row() {
    assert_eq!(
        chunk_origins(40, 20),
        vec![(0, 0), (16, 0), (32, 0), (0, 16), (16, 16), (32, 16)]
    );
    assert_eq!(chunk_origins(16, 16), vec![(0, 0)]);
    assert!(chunk_origins(0, 20).is_empty());
    assert!(chunk_origins(20, 0).is_empty());
}

#[test]
fn a_chunk_holds_local_tile_numbers_row_by_row() {
    let width = 20;
    let height = 18;
    let tiles: Vec<u32> = (0..width * height).map(|i| 100 + i as u32).collect();
    let chunk = chunk_tiles(&tiles, width, height, 0, 0, 100);
    assert_eq!(chunk.len(), 256);
    for y in 0..16 {
        for x in 0..16 {
            assert_eq!(chunk[y * 16 + x] as usize, y * width + x + 1);
        }
    }
}

#[test]
fn a_chunk_over_the_edge_is_filled_up_with_empty_tiles() {
    let width = 20;
    let height = 18;
    let tiles: Vec<u32> = (0..width * height).map(|i| 100 + i as u32).collect();
    let chunk = chunk_tiles(&tiles, width, height, 16, 16, 100);
    for y in 0..16 {
        for x in 0..16 {
            let expected = if x < 4 && y < 2 { (16 + y) * width + 16 + x + 1 } else { 0 };
            assert_eq!(chunk[y * 16 + x] as usize, expected);
        }
    }
    assert_eq!(chunk[0], 337);
    assert_eq!(chunk[3], 340);
    assert_eq!(chunk[4], 0);
    assert_eq!(chunk[16], 357);
    assert_eq!(chunk[32], 0);
}

#[test]
fn empty_tiles_stay_empty_and_numbers_keep_16_bits() {
    let tiles = vec![0, 1, 65536, 65537];
    let chunk = chunk_tiles(&tiles, 4, 1, 0, 0, 1);
    assert_eq!(&chunk[..4], &[0, 1, 0, 1]);
}

#[test]
fn a_chunk_that_cannot_be_cut_is_none() {
    let tiles = vec![5u32; 12];
    assert!(try_chunk_tiles(&tiles, 4, 3, 0, 0, 1).is_some());
    assert!(try_chunk_tiles(&tiles, 4, 3, 4, 3, 1).is_some());
    assert_eq!(try_chunk_tiles(&tiles, 4, 3, 5, 0, 1), None);
    assert_eq!(try_chunk_tiles(&tiles, 4, 3, 0, 4, 1), None);
    assert_eq!(try_chunk_tiles(&tiles, 4, 4, 0, 0, 1), None);
    assert_eq!(try_chunk_tiles(&tiles, usize::MAX, 2, 0, 0, 1), None);
    assert_eq!(try_chunk_tiles(&tiles, 4, 3, 0, 0, 7), None);
    assert_eq!(try_chunk_tiles(&vec![u32::MAX; 12], 4, 3, 0, 0, 1), None);
    assert_eq!(
        try_chunk_tiles(&tiles, 4, 3, 0, 0, 1),
        Some(chunk_tiles(&tiles, 4, 3, 0, 0, 1))
    );
}

#[test]
fn a_tile_outside_of_the_chunk_does_not_matter() {
    let mut tiles = vec![5u32; 17 * 2];
    tiles[16] = 0;
    assert!(try_chunk_tiles(&tiles, 17, 2, 0, 0, 3).is_some());
    assert_eq!(try_chunk_tiles(&tiles, 17, 2, 16, 0, 3), None);
}

#[test]
fn the_camera_follows_the_held_keys() {
    assert_eq!(camera_direction(false, false, false, false), None);
    assert_eq!(camera_direction(true, false, false, false), Some((1, 0)));
    assert_eq!(camera_direction(false, true, false, false), Some((-1, 0)));
    assert_eq!(camera_direction(false, false, true, false), Some((0, -1)));
    assert_eq!(camera_direction(false, false, false, true), Some((0, 1)));
    assert_eq!(camera_direction(true, false, false, true), Some((1, 1)));
}

#[test]
fn of_opposite_keys_right_and_up_win() {
    assert_eq!(camera_direction(true, true, false, false), Some((1, 0)));
    assert_eq!(camera_direction(false, false, true, true), Some((0, -1)));
    assert_eq!(camera_direction(true, true, true, true), Some((1, -1)));
}
