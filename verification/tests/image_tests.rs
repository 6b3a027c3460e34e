use sensor_serde::DecodeError;
use sensor_serde::grid::{Color, PixelGrid};
use sensor_serde::image::{EncodedImage, ImageEventSerBorrowed, ImageEventSerDe};

fn px(b: u8, g: u8, r: u8, a: u8) -> Color {
    Color { b, g, r, a }
}

fn sample_grid(h: usize, w: usize) -> PixelGrid {
    let mut data: Vec<Color> = Vec::new();
    for i in 0..h {
        for j in 0..w {
            data.push(px(i as u8, j as u8, (i + j) as u8, 255));
        }
    }
    PixelGrid::from_vec(h, w, data)
}

#[test]
fn image_round_trip_small() {
    let img = ImageEventSerDe::from_grid(sample_grid(2, 3), 90f32.to_bits());
    assert_eq!(img.height, 2);
    assert_eq!(img.width, 3);
    assert_eq!(img.len, 6);
    assert!(!img.is_empty);
    let encoded = img.encode();
    assert_eq!(encoded.height, 2);
    assert_eq!(encoded.array.len(), 2);
    assert_eq!(encoded.array[0].len(), 3);
    // declared schema order is (b, g, r, a)
    assert_eq!(encoded.array[1][2], vec![1u64, 2, 3, 255]);
    let back = ImageEventSerDe::decode(&encoded).unwrap();
    assert_eq!(back.height, img.height);
    assert_eq!(back.width, img.width);
    assert_eq!(back.len, img.len);
    assert_eq!(back.is_empty, img.is_empty);
    assert_eq!(back.fov_angle_bits, img.fov_angle_bits);
    let (h, w) = back.array.dim();
    assert_eq!((h, w), (2, 3));
    for i in 0..2 {
        for j in 0..3 {
            assert_eq!(back.array.get(i, j), img.array.get(i, j));
        }
    }
}

#[test]
fn image_round_trip_empty() {
    let img = ImageEventSerDe::from_grid(PixelGrid::from_vec(0, 0, Vec::new()), 0);
    assert!(img.is_empty);
    let encoded = img.encode();
    assert_eq!(encoded.array.len(), 0);
    let back = ImageEventSerDe::decode(&encoded).unwrap();
    let (h, w) = back.array.dim();
    assert_eq!((h, w), (0, 0));
    assert!(back.is_empty);
}

#[test]
fn ragged_grid_rejected() {
    // row lengths [3, 3, 2] must fail with RaggedGrid
    let row3 = vec![vec![0u64, 0, 0, 0], vec![1, 1, 1, 1], vec![2, 2, 2, 2]];
    let row2 = vec![vec![3u64, 3, 3, 3], vec![4, 4, 4, 4]];
    let encoded = EncodedImage {
        height: 3,
        width: 3,
        len: 9,
        is_empty: false,
        fov_angle_bits: 0,
        array: vec![row3.clone(), row3, row2],
    };
    assert!(matches!(ImageEventSerDe::decode(&encoded), Err(DecodeError::RaggedGrid)));
}

#[test]
fn zero_width_rows_accepted() {
    // row lengths [0, 0, 0] with three rows decode to a 3 by 0 grid
    let encoded = EncodedImage {
        height: 3,
        width: 0,
        len: 0,
        is_empty: true,
        fov_angle_bits: 0,
        array: vec![Vec::new(), Vec::new(), Vec::new()],
    };
    let back = ImageEventSerDe::decode(&encoded).unwrap();
    let (h, w) = back.array.dim();
    assert_eq!((h, w), (3, 0));
}

#[test]
fn empty_outer_sequence_decodes_to_empty_grid() {
    let encoded = EncodedImage {
        height: 0,
        width: 0,
        len: 0,
        is_empty: true,
        fov_angle_bits: 0,
        array: Vec::new(),
    };
    let back = ImageEventSerDe::decode(&encoded).unwrap();
    let (h, w) = back.array.dim();
    assert_eq!((h, w), (0, 0));
}

#[test]
fn malformed_pixel_rejected() {
    // a channel above 255 is structurally invalid
    let encoded = EncodedImage {
        height: 1,
        width: 1,
        len: 1,
        is_empty: false,
        fov_angle_bits: 0,
        array: vec![vec![vec![300u64, 0, 0, 0]]],
    };
    assert!(matches!(ImageEventSerDe::decode(&encoded), Err(DecodeError::MalformedElement)));
}

#[test]
fn wrong_pixel_field_count_rejected() {
    // three fields instead of four is a schema mismatch
    let encoded = EncodedImage {
        height: 1,
        width: 1,
        len: 1,
        is_empty: false,
        fov_angle_bits: 0,
        array: vec![vec![vec![0u64, 0, 0]]],
    };
    assert!(matches!(ImageEventSerDe::decode(&encoded), Err(DecodeError::SchemaMismatch)));
}

#[test]
fn first_element_error_wins_over_ragged() {
    // a malformed pixel in the first row is reported before the ragged shape
    let encoded = EncodedImage {
        height: 2,
        width: 2,
        len: 4,
        is_empty: false,
        fov_angle_bits: 0,
        array: vec![vec![vec![999u64, 0, 0, 0], vec![0, 0, 0, 0]], vec![vec![0u64, 0, 0, 0]]],
    };
    assert!(matches!(ImageEventSerDe::decode(&encoded), Err(DecodeError::MalformedElement)));
}

#[test]
fn borrowed_and_owned_encode_identically() {
    let grid_a = sample_grid(4, 5);
    let grid_b = sample_grid(4, 5);
    let fov = 110f32.to_bits();
    let borrowed = ImageEventSerBorrowed::from_grid(&grid_a, fov);
    let owned = ImageEventSerDe::from_grid(grid_b, fov);
    assert_eq!(borrowed.encode(), owned.encode());
}

#[test]
fn encode_field_order_differs_from_render_order() {
    // encoded fields keep the foreign order (b, g, r, a); the renderer leads
    // with the red channel
    let c = px(1, 2, 3, 4);
    let img = ImageEventSerDe::from_grid(PixelGrid::from_vec(1, 1, vec![c]), 0);
    let encoded = img.encode();
    assert_eq!(encoded.array[0][0], vec![1u64, 2, 3, 4]);
    let text = img.render(true);
    assert!(text.contains("(3, 2, 1, 4)"));
    assert!(!text.contains("(1, 2, 3, 4)"));
}

fn expected_pixel_text(i: usize, j: usize) -> String {
    // render order is (r, g, b, a)
    format!("({}, {}, {}, {})", i + j, j, i, 255)
}

#[test]
fn preview_render_is_bounded() {
    let img = ImageEventSerDe::from_grid(sample_grid(10, 10), 90f32.to_bits());
    let mut expected = format!(
        "ImageEventSerDe {{ height: 10, width: 10, len: 100, is_empty: false, fov_angle_bits: {}, .. }}",
        90f32.to_bits()
    );
    expected.push_str("\narray (preview 10x10, showing 3x3) = [\n");
    for i in 0..3 {
        expected.push_str("  [");
        for j in 0..3 {
            if j > 0 {
                expected.push_str(", ");
            }
            expected.push_str(&expected_pixel_text(i, j));
        }
        expected.push_str(", \u{2026}],\n");
    }
    expected.push_str("  \u{2026}\n]");
    assert_eq!(img.render(false), expected);
}

#[test]
fn full_render_shows_everything() {
    let img = ImageEventSerDe::from_grid(sample_grid(10, 10), 90f32.to_bits());
    let mut expected = format!(
        "ImageEventSerDe {{ height: 10, width: 10, len: 100, is_empty: false, fov_angle_bits: {}, .. }}",
        90f32.to_bits()
    );
    expected.push_str("\narray (full 10x10) = [\n");
    for i in 0..10 {
        expected.push_str("  [");
        for j in 0..10 {
            if j > 0 {
                expected.push_str(", ");
            }
            expected.push_str(&expected_pixel_text(i, j));
        }
        expected.push_str("],\n");
    }
    expected.push_str("]");
    let text = img.render(true);
    assert_eq!(text, expected);
    assert!(!text.contains('\u{2026}'));
}

#[test]
fn preview_of_small_grid_has_no_elision() {
    let img = ImageEventSerDe::from_grid(sample_grid(2, 2), 0);
    let text = img.render(false);
    assert!(text.contains("showing 2x2"));
    assert!(!text.contains('\u{2026}'));
}

#[test]
fn borrowed_render_names_the_borrowed_adapter() {
    let grid = sample_grid(2, 2);
    let borrowed = ImageEventSerBorrowed::from_grid(&grid, 0);
    let text = borrowed.render(false);
    assert!(text.starts_with("ImageEventSerBorrowed { height: 2, width: 2,"));
}

#[test]
fn decode_error_messages() {
    assert_eq!(DecodeError::SchemaMismatch.message(), "field set does not match the schema");
    assert_eq!(DecodeError::UnknownVariant.message(), "enum tag outside the declared variants");
    assert_eq!(DecodeError::MalformedElement.message(), "structurally invalid element");
    assert_eq!(DecodeError::RaggedGrid.message(), "rows of a 2D payload differ in length");
}
