use minigames::imaging::{
    generate_dino_collection_image, generate_dino_image, image_file_name, CollectionImageError,
    Picture,
};
use minigames::layout::{
    cell_origin, ceil_sqrt, grid_for, Grid, COLUMN_MARGIN, DINO_IMAGE_SIZE, MAX_GRID_CELLS,
    MAX_GRID_COLUMNS, ROW_MARGIN,
};

const RED: [u8; 4] = [255, 0, 0, 255];
const BLUE: [u8; 4] = [0, 0, 255, 255];
const CLEAR: [u8; 4] = [0, 0, 0, 0];

fn filled(width: u32, height: u32, colour: [u8; 4]) -> Picture {
    let mut pixels = Vec::new();
    for _ in 0..(width * height) {
        pixels.extend_from_slice(&colour);
    }
    Picture::from_rgba(width, height, pixels).unwrap()
}

fn expect_grid(n: usize, columns: u32, rows: u32) -> Grid {
    let grid = grid_for(n).unwrap();
    assert_eq!((grid.columns, grid.rows), (columns, rows));
    assert_eq!(grid.width, columns * 112 + (columns - 1) * 2);
    assert_eq!(grid.height, rows * 112 + (rows - 1) * 2);
    for i in 0..n {
        let (x, y) = cell_origin(&grid, i, n);
        assert_eq!(x, (i as u32 % columns) * 114);
        assert_eq!(y, (i as u32 / columns) * 114);
    }
    grid
}

#[test]
fn the_cell_measures() {
    assert_eq!(DINO_IMAGE_SIZE, 112);
    assert_eq!(COLUMN_MARGIN, 2);
    assert_eq!(ROW_MARGIN, 2);
    assert_eq!(MAX_GRID_COLUMNS * MAX_GRID_COLUMNS, MAX_GRID_CELLS);
}

#[test]
fn grid_for_one() {
    let grid = expect_grid(1, 1, 1);
    assert_eq!((grid.width, grid.height), (112, 112));
    assert_eq!(cell_origin(&grid, 0, 1), (0, 0));
}

#[test]
fn grid_for_two() {
    let grid = expect_grid(2, 2, 1);
    assert_eq!((grid.width, grid.height), (226, 112));
    assert_eq!(cell_origin(&grid, 1, 2), (114, 0));
}

#[test]
fn grid_for_three() {
    let grid = expect_grid(3, 2, 2);
    assert_eq!((grid.width, grid.height), (226, 226));
    assert_eq!(cell_origin(&grid, 2, 3), (0, 114));
}

#[test]
fn grid_for_four() {
    let grid = expect_grid(4, 2, 2);
    assert_eq!(cell_origin(&grid, 3, 4), (114, 114));
}

#[test]
fn grid_for_five() {
    let grid = expect_grid(5, 3, 2);
    assert_eq!((grid.width, grid.height), (340, 226));
    assert_eq!(cell_origin(&grid, 2, 5), (228, 0));
    assert_eq!(cell_origin(&grid, 3, 5), (0, 114));
    assert_eq!(cell_origin(&grid, 4, 5), (114, 114));
}

#[test]
fn grid_for_ten() {
    let grid = expect_grid(10, 4, 3);
    assert_eq!((grid.width, grid.height), (454, 340));
    assert_eq!(cell_origin(&grid, 3, 10), (342, 0));
    assert_eq!(cell_origin(&grid, 4, 10), (0, 114));
    assert_eq!(cell_origin(&grid, 9, 10), (114, 228));
}

#[test]
fn grid_for_a_full_collection() {
    expect_grid(25, 5, 5);
    expect_grid(26, 6, 5);
    expect_grid(9, 3, 3);
    expect_grid(7, 3, 3);
    expect_grid(6, 3, 2);
}

#[test]
fn no_grid_for_nothing() {
    assert_eq!(grid_for(0), None);
}

#[test]
fn square_roots_are_rounded_up() {
    let expected = [0u64, 1, 2, 2, 2, 3, 3, 3, 3, 3, 4, 4, 4, 4, 4, 4, 4, 5];
    for (n, root) in expected.iter().enumerate() {
        assert_eq!(ceil_sqrt(n as u64), *root);
    }
    assert_eq!(ceil_sqrt(1_000_000), 1_000);
    assert_eq!(ceil_sqrt(1_000_001), 1_001);
}

#[test]
fn pictures_need_four_bytes_a_pixel() {
    assert!(Picture::from_rgba(1, 1, vec![1, 2, 3, 4]).is_some());
    assert!(Picture::from_rgba(1, 1, vec![1, 2, 3]).is_none());
    assert!(Picture::from_rgba(1, 1, vec![1, 2, 3, 4, 5]).is_none());
    assert!(Picture::from_rgba(2, 3, vec![0; 24]).is_some());
    assert!(Picture::from_rgba(0, 5, Vec::new()).is_some());
    let picture = Picture::from_rgba(2, 1, vec![1, 2, 3, 4, 5, 6, 7, 8]).unwrap();
    assert_eq!((picture.width(), picture.height()), (2, 1));
    assert_eq!(picture.pixels(), &vec![1, 2, 3, 4, 5, 6, 7, 8]);
    let copy = picture.duplicate();
    assert_eq!(copy.pixels(), picture.pixels());
    assert_eq!((copy.width(), copy.height()), (2, 1));
}

#[test]
fn a_blank_picture_is_transparent() {
    let blank = Picture::blank(3, 2).unwrap();
    assert_eq!((blank.width(), blank.height()), (3, 2));
    assert_eq!(blank.pixels(), &vec![0u8; 24]);
    assert_eq!(Picture::blank(0, 0).unwrap().pixels().len(), 0);
}

#[test]
fn an_opaque_layer_covers_what_is_under_it() {
    let out = filled(2, 2, BLUE).overlay(&filled(1, 1, RED), 1, 0);
    let mut expected = Vec::new();
    for colour in [BLUE, RED, BLUE, BLUE] {
        expected.extend_from_slice(&colour);
    }
    assert_eq!(out.pixels(), &expected);
    assert_eq!((out.width(), out.height()), (2, 2));
}

#[test]
fn a_transparent_layer_leaves_what_is_under_it() {
    let out = filled(2, 2, BLUE).overlay(&filled(2, 2, CLEAR), 0, 0);
    assert_eq!(out.pixels(), filled(2, 2, BLUE).pixels());
}

#[test]
fn a_layer_beside_the_picture_changes_nothing() {
    let out = filled(2, 2, BLUE).overlay(&filled(2, 2, RED), 2, 0);
    assert_eq!(out.pixels(), filled(2, 2, BLUE).pixels());
    let out = filled(2, 2, BLUE).overlay(&filled(2, 2, RED), -2, -2);
    assert_eq!(out.pixels(), filled(2, 2, BLUE).pixels());
    let out = filled(2, 2, BLUE).overlay(&filled(2, 2, RED), -1, -1);
    let mut expected = Vec::new();
    for colour in [RED, BLUE, BLUE, BLUE] {
        expected.extend_from_slice(&colour);
    }
    assert_eq!(out.pixels(), &expected);
}

#[test]
fn a_creature_is_body_then_mouth_then_eyes() {
    let body = filled(2, 1, BLUE);
    let mut mouth_pixels = Vec::new();
    mouth_pixels.extend_from_slice(&RED);
    mouth_pixels.extend_from_slice(&RED);
    let mouth = Picture::from_rgba(2, 1, mouth_pixels).unwrap();
    let mut eye_pixels = Vec::new();
    eye_pixels.extend_from_slice(&CLEAR);
    eye_pixels.extend_from_slice(&[0, 255, 0, 255]);
    let eyes = Picture::from_rgba(2, 1, eye_pixels).unwrap();
    let dino = generate_dino_image(&body, &mouth, &eyes);
    // The mouth covers the body, the eyes cover the mouth where they are opaque.
    assert_eq!(dino.pixels(), &vec![255, 0, 0, 255, 0, 255, 0, 255]);
    assert_eq!((dino.width(), dino.height()), (2, 1));
    // The parts themselves are untouched.
    assert_eq!(body.pixels(), filled(2, 1, BLUE).pixels());
    // In the other order the result differs.
    let other = generate_dino_image(&body, &eyes, &mouth);
    assert_eq!(other.pixels(), &vec![255, 0, 0, 255, 255, 0, 0, 255]);
}

#[test]
fn half_transparent_layers_blend() {
    let bottom = Picture::from_rgba(1, 1, vec![0, 0, 255, 255]).unwrap();
    let top = Picture::from_rgba(1, 1, vec![255, 0, 0, 128]).unwrap();
    let out = bottom.overlay(&top, 0, 0);
    let pixel = out.pixels();
    assert!(pixel[3] >= 254);
    assert!(pixel[0] >= 127 && pixel[0] <= 129);
    assert_eq!(pixel[1], 0);
    assert!(pixel[2] >= 126 && pixel[2] <= 128);
}

#[test]
fn pictures_are_written_as_png() {
    let picture = filled(3, 2, RED);
    let file = picture.to_png().unwrap();
    assert_eq!(&file[..8], &[0x89, b'P', b'N', b'G', 0x0d, 0x0a, 0x1a, 0x0a]);
    let decoded = image::load_from_memory(&file).unwrap().to_rgba8();
    assert_eq!(decoded.dimensions(), (3, 2));
    assert_eq!(&decoded.into_raw(), picture.pixels());
    // The same picture gives the same file.
    assert_eq!(filled(3, 2, RED).to_png().unwrap(), file);
}

#[test]
fn a_collection_is_drawn_row_by_row() {
    let cells = vec![
        filled(112, 112, RED),
        filled(112, 112, BLUE),
        filled(112, 112, [0, 255, 0, 255]),
    ];
    let file = generate_dino_collection_image(&cells).unwrap();
    let canvas = image::load_from_memory(&file).unwrap().to_rgba8();
    assert_eq!(canvas.dimensions(), (226, 226));
    assert_eq!(canvas.get_pixel(0, 0).0, RED);
    assert_eq!(canvas.get_pixel(111, 111).0, RED);
    assert_eq!(canvas.get_pixel(112, 0).0, CLEAR);
    assert_eq!(canvas.get_pixel(113, 50).0, CLEAR);
    assert_eq!(canvas.get_pixel(114, 0).0, BLUE);
    assert_eq!(canvas.get_pixel(225, 111).0, BLUE);
    assert_eq!(canvas.get_pixel(0, 112).0, CLEAR);
    assert_eq!(canvas.get_pixel(0, 114).0, [0, 255, 0, 255]);
    assert_eq!(canvas.get_pixel(111, 225).0, [0, 255, 0, 255]);
    // The fourth cell stays empty.
    assert_eq!(canvas.get_pixel(114, 114).0, CLEAR);
    assert_eq!(canvas.get_pixel(225, 225).0, CLEAR);
}

#[test]
fn a_single_creature_fills_the_canvas() {
    let file = generate_dino_collection_image(&vec![filled(112, 112, BLUE)]).unwrap();
    let canvas = image::load_from_memory(&file).unwrap().to_rgba8();
    assert_eq!(canvas.dimensions(), (112, 112));
    assert_eq!(&canvas.into_raw(), filled(112, 112, BLUE).pixels());
}

#[test]
fn an_empty_collection_has_no_picture() {
    assert_eq!(
        generate_dino_collection_image(&Vec::new()).err(),
        Some(CollectionImageError::Empty)
    );
}

#[test]
fn the_picture_of_a_creature_is_named_after_it() {
    assert_eq!(image_file_name("rexrinepy"), "rexrinepy.png");
    assert_eq!(image_file_name("a.b"), "a.png");
    assert_eq!(image_file_name(".abc"), ".abc.png");
    assert_eq!(image_file_name("x"), "x.png");
}
