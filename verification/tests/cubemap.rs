use render_harness::error::AssetError;
use render_harness::resource::{
    BindingKind, FilterMode, ShaderStages, TextureDimension, TextureFormat, TextureUsages,
    ViewDimension,
};
use render_harness::texture::{check_faces, CubeFace, CubeMap, FaceImage, Turn, FACE_COUNT};

const TAG: [u8; 4] = [255, 0, 255, 255];

/// A `side` by `side` face of one color with the tag in its top-left corner.
fn tagged(side: u32, color: [u8; 4]) -> FaceImage {
    let mut pixels = Vec::new();
    for p in 0..side * side {
        pixels.extend_from_slice(if p == 0 { &TAG } else { &color });
    }
    FaceImage { width: side, height: side, pixels }
}

/// A face whose pixel `p`, counted row by row, has the color `[p, p, p, 255]`.
fn numbered(width: u32, height: u32) -> FaceImage {
    let mut pixels = Vec::new();
    for p in 0..width * height {
        pixels.extend_from_slice(&[p as u8, p as u8, p as u8, 255]);
    }
    FaceImage { width, height, pixels }
}

fn numbers(layer: &[u8]) -> Vec<u8> {
    layer.chunks(4).map(|p| p[0]).collect()
}

fn pixel(layer: &[u8], width: usize, x: usize, y: usize) -> [u8; 4] {
    let at = 4 * (y * width + x);
    [layer[at], layer[at + 1], layer[at + 2], layer[at + 3]]
}

fn six(f: impl Fn(usize) -> FaceImage) -> [FaceImage; 6] {
    [f(0), f(1), f(2), f(3), f(4), f(5)]
}

#[test]
fn tagged_corner_turns_with_the_up_and_down_faces() {
    let side = 3usize;
    let faces = six(|i| tagged(3, [10 * i as u8 + 1, 0, 0, 255]));
    let map = CubeMap::new(&faces).unwrap();
    let layer_len = 4 * side * side;
    assert_eq!(map.data.len(), 6 * layer_len);
    for i in 0..6 {
        let layer = &map.data[i * layer_len..(i + 1) * layer_len];
        let color = [10 * i as u8 + 1, 0, 0, 255];
        let corner = match i {
            2 => (side - 1, 0),
            3 => (0, side - 1),
            _ => (0, 0),
        };
        for y in 0..side {
            for x in 0..side {
                let expected = if (x, y) == corner { TAG } else { color };
                assert_eq!(pixel(layer, side, x, y), expected, "layer {i} pixel ({x}, {y})");
            }
        }
    }
}

#[test]
fn unturned_faces_are_stacked_unchanged() {
    let faces = six(|i| tagged(2, [i as u8, 1, 2, 3]));
    let map = CubeMap::new(&faces).unwrap();
    for i in [0usize, 1, 4, 5] {
        assert_eq!(map.data[16 * i..16 * (i + 1)], faces[i].pixels[..]);
    }
    assert_ne!(map.data[32..48], faces[2].pixels[..]);
    assert_ne!(map.data[48..64], faces[3].pixels[..]);
}

#[test]
fn quarter_and_three_quarter_turn_of_a_numbered_face() {
    // The first face is 3 wide and 2 high, so the up and the down face are
    // 2 wide and 3 high before they are turned.
    let faces = six(|i| if i == 2 || i == 3 { numbered(2, 3) } else { numbered(3, 2) });
    let map = CubeMap::new(&faces).unwrap();
    assert_eq!(map.texture.size.width, 3);
    assert_eq!(map.texture.size.height, 2);
    assert_eq!(map.data.len(), 6 * 24);
    assert_eq!(numbers(&map.data[0..24]), vec![0, 1, 2, 3, 4, 5]);
    assert_eq!(numbers(&map.data[48..72]), vec![4, 2, 0, 5, 3, 1]);
    assert_eq!(numbers(&map.data[72..96]), vec![1, 3, 5, 0, 2, 4]);
    assert_eq!(numbers(&map.data[96..120]), vec![0, 1, 2, 3, 4, 5]);
    assert!(map.data.chunks(4).all(|p| p[3] == 255 && p[0] == p[1] && p[1] == p[2]));
}

#[test]
fn describes_the_texture_sampler_and_bindings() {
    let faces = six(|_| tagged(4, [0, 0, 0, 255]));
    let map = CubeMap::new(&faces).unwrap();
    assert_eq!(map.texture.size.width, 4);
    assert_eq!(map.texture.size.height, 4);
    assert_eq!(map.texture.size.depth_or_array_layers, 6);
    assert_eq!(map.texture.mip_level_count, 1);
    assert_eq!(map.texture.sample_count, 1);
    assert_eq!(map.texture.dimension, TextureDimension::D2);
    assert_eq!(map.texture.format, TextureFormat::Rgba8UnormSrgb);
    assert_eq!(
        map.texture.usage,
        TextureUsages { texture_binding: true, copy_dst: true, render_attachment: false }
    );
    assert_eq!(map.view_dimension, ViewDimension::Cube);
    assert_eq!(map.sampler.mag_filter, FilterMode::Linear);
    assert_eq!(map.sampler.min_filter, FilterMode::Linear);
    assert_eq!(map.data_layout.offset, 0);
    assert_eq!(map.data_layout.bytes_per_row, 16);
    assert_eq!(map.data_layout.rows_per_image, 4);
    let fragment = ShaderStages { vertex: false, fragment: true, compute: false };
    assert_eq!(map.bind_group_layout.len(), 2);
    assert_eq!(map.bind_group_layout[0].binding, 0);
    assert_eq!(map.bind_group_layout[0].visibility, fragment);
    assert_eq!(map.bind_group_layout[0].kind, BindingKind::CubeTexture);
    assert_eq!(map.bind_group_layout[1].binding, 1);
    assert_eq!(map.bind_group_layout[1].visibility, fragment);
    assert_eq!(map.bind_group_layout[1].kind, BindingKind::FilteringSampler);
}

#[test]
fn one_pixel_faces() {
    let faces = six(|i| FaceImage { width: 1, height: 1, pixels: vec![i as u8, 0, 0, 255] });
    let map = CubeMap::new(&faces).unwrap();
    assert_eq!(numbers(&map.data), vec![0, 1, 2, 3, 4, 5]);
}

#[test]
fn faces_without_pixels() {
    let faces = six(|_| FaceImage { width: 0, height: 0, pixels: vec![] });
    let map = CubeMap::new(&faces).unwrap();
    assert!(map.data.is_empty());
    assert_eq!(map.data_layout.bytes_per_row, 0);
}

#[test]
fn a_face_of_another_size_is_an_error() {
    for odd in 1..6 {
        let faces = six(|i| if i == odd { tagged(3, [0; 4]) } else { tagged(2, [0; 4]) });
        assert_eq!(CubeMap::new(&faces), Err(AssetError::SizeMismatch), "face {odd}");
    }
}

#[test]
fn equal_faces_that_are_not_square_are_an_error() {
    let faces = six(|_| numbered(3, 2));
    assert_eq!(CubeMap::new(&faces), Err(AssetError::SizeMismatch));
}

#[test]
fn a_face_with_missing_bytes_is_an_error() {
    for bad in 0..6 {
        let faces = six(|i| {
            let mut face = tagged(2, [0; 4]);
            if i == bad {
                face.pixels.pop();
            }
            face
        });
        assert_eq!(CubeMap::new(&faces), Err(AssetError::BadPixelCount), "face {bad}");
    }
}

#[test]
fn a_face_with_extra_bytes_is_an_error() {
    let faces = six(|i| {
        let mut face = tagged(2, [0; 4]);
        if i == 5 {
            face.pixels.push(0);
        }
        face
    });
    assert_eq!(CubeMap::new(&faces), Err(AssetError::BadPixelCount));
}

#[test]
fn bad_pixel_count_comes_before_size_mismatch() {
    let faces = six(|i| match i {
        1 => tagged(3, [0; 4]),
        4 => FaceImage { width: 2, height: 2, pixels: vec![0; 15] },
        _ => tagged(2, [0; 4]),
    });
    assert_eq!(CubeMap::new(&faces), Err(AssetError::BadPixelCount));
}

#[test]
fn a_row_too_wide_for_an_upload_is_an_error() {
    let wide = 0x4000_0000u32;
    let faces = six(|i| {
        if i == 2 || i == 3 {
            FaceImage { width: 0, height: wide, pixels: vec![] }
        } else {
            FaceImage { width: wide, height: 0, pixels: vec![] }
        }
    });
    assert_eq!(check_faces(&faces), Some(AssetError::RowTooWide));
    assert_eq!(CubeMap::new(&faces), Err(AssetError::RowTooWide));
    let fits = wide - 1;
    let faces = six(|i| {
        if i == 2 || i == 3 {
            FaceImage { width: 0, height: fits, pixels: vec![] }
        } else {
            FaceImage { width: fits, height: 0, pixels: vec![] }
        }
    });
    assert_eq!(check_faces(&faces), None);
}

#[test]
fn a_column_too_tall_for_the_machine_is_an_error() {
    // Four times the height fits in 64 bits and does not fit in 32.
    let tall = 0x4000_0000u32;
    let faces = six(|i| {
        if i == 2 || i == 3 {
            FaceImage { width: tall, height: 0, pixels: vec![] }
        } else {
            FaceImage { width: 0, height: tall, pixels: vec![] }
        }
    });
    if (tall as u64) * 4 > usize::MAX as u64 {
        assert_eq!(check_faces(&faces), Some(AssetError::ColumnTooTall));
        assert_eq!(CubeMap::new(&faces), Err(AssetError::ColumnTooTall));
    } else {
        assert_eq!(check_faces(&faces), None);
        let map = CubeMap::new(&faces).unwrap();
        assert!(map.data.is_empty());
        assert_eq!(map.texture.size.width, 0);
        assert_eq!(map.texture.size.height, tall);
        assert_eq!(map.data_layout.bytes_per_row, 0);
        assert_eq!(map.data_layout.rows_per_image, tall);
    }
}

#[test]
fn a_row_too_wide_comes_before_a_column_too_tall() {
    let faces = six(|_| FaceImage { width: u32::MAX, height: u32::MAX, pixels: vec![] });
    assert_eq!(check_faces(&faces), Some(AssetError::BadPixelCount));
    let wide = 0x4000_0000u32;
    let faces = six(|i| {
        if i == 2 || i == 3 {
            FaceImage { width: 0, height: wide, pixels: vec![] }
        } else {
            FaceImage { width: wide, height: 0, pixels: vec![] }
        }
    });
    assert_eq!(check_faces(&faces), Some(AssetError::RowTooWide));
}

#[test]
fn check_faces_agrees_with_new() {
    let good = six(|_| tagged(2, [0; 4]));
    assert_eq!(check_faces(&good), None);
    assert!(CubeMap::new(&good).is_ok());
    let odd = six(|i| if i == 3 { tagged(3, [0; 4]) } else { tagged(2, [0; 4]) });
    assert_eq!(check_faces(&odd), Some(AssetError::SizeMismatch));
    let short = six(|i| FaceImage { width: 1, height: 1, pixels: vec![0; if i == 0 { 3 } else { 4 }] });
    assert_eq!(check_faces(&short), Some(AssetError::BadPixelCount));
}

#[test]
fn well_formed_counts_four_bytes_per_pixel() {
    assert!(FaceImage { width: 2, height: 3, pixels: vec![0; 24] }.is_well_formed());
    assert!(!FaceImage { width: 2, height: 3, pixels: vec![0; 23] }.is_well_formed());
    assert!(!FaceImage { width: 2, height: 3, pixels: vec![0; 6] }.is_well_formed());
    assert!(FaceImage { width: 0, height: 7, pixels: vec![] }.is_well_formed());
    assert!(!FaceImage { width: u32::MAX, height: u32::MAX, pixels: vec![0; 4] }.is_well_formed());
}

#[test]
fn faces_in_stacking_order() {
    let order = [
        CubeFace::Left,
        CubeFace::Right,
        CubeFace::Up,
        CubeFace::Down,
        CubeFace::Front,
        CubeFace::Back,
    ];
    assert_eq!(FACE_COUNT, 6);
    for (i, face) in order.iter().enumerate() {
        assert_eq!(face.index(), i);
        assert_eq!(CubeFace::from_index(i), Some(*face));
    }
    assert_eq!(CubeFace::from_index(6), None);
    assert_eq!(CubeFace::from_index(usize::MAX), None);
}

#[test]
fn only_up_and_down_are_turned() {
    assert_eq!(CubeFace::Left.turn(), Turn::Upright);
    assert_eq!(CubeFace::Right.turn(), Turn::Upright);
    assert_eq!(CubeFace::Up.turn(), Turn::Quarter);
    assert_eq!(CubeFace::Down.turn(), Turn::ThreeQuarter);
    assert_eq!(CubeFace::Front.turn(), Turn::Upright);
    assert_eq!(CubeFace::Back.turn(), Turn::Upright);
}

#[test]
fn face_file_names() {
    assert_eq!(CubeFace::Left.file_name(), "yellowcloud_lf.jpg");
    assert_eq!(CubeFace::Right.file_name(), "yellowcloud_rt.jpg");
    assert_eq!(CubeFace::Up.file_name(), "yellowcloud_up.jpg");
    assert_eq!(CubeFace::Down.file_name(), "yellowcloud_dn.jpg");
    assert_eq!(CubeFace::Front.file_name(), "yellowcloud_ft.jpg");
    assert_eq!(CubeFace::Back.file_name(), "yellowcloud_bk.jpg");
}
