use town_links::err::Error;
use town_links::texture::{
    non_zero, AddressMode, Extent3d, FilterMode, ImageDataLayout, ImageFormat, RgbaImage,
    SamplerDescriptor, TextureDimension, TextureFormat, TextureState, TextureUsages,
};

fn rgba_2x2() -> Vec<u8> {
    vec![
        137, 80, 78, 71, 13, 10, 26, 10, 0, 0, 0, 13, 73, 72, 68, 82, 0, 0, 0, 2, 0, 0, 0, 2, 8,
        6, 0, 0, 0, 114, 182, 13, 36, 0, 0, 0, 23, 73, 68, 65, 84, 120, 218, 99, 248, 207, 192,
        240, 31, 8, 27, 24, 128, 180, 3, 151, 136, 156, 6, 0, 55, 233, 5, 33, 56, 8, 107, 13, 0,
        0, 0, 0, 73, 69, 78, 68, 174, 66, 96, 130,
    ]
}

fn gray_3x1() -> Vec<u8> {
    vec![
        137, 80, 78, 71, 13, 10, 26, 10, 0, 0, 0, 13, 73, 72, 68, 82, 0, 0, 0, 3, 0, 0, 0, 1, 8,
        0, 0, 0, 0, 62, 139, 75, 104, 0, 0, 0, 12, 73, 68, 65, 84, 120, 218, 99, 96, 168, 255,
        15, 0, 2, 1, 1, 127, 139, 27, 100, 97, 0, 0, 0, 0, 73, 69, 78, 68, 174, 66, 96, 130,
    ]
}

fn expected_sampler() -> SamplerDescriptor {
    SamplerDescriptor {
        address_mode_u: AddressMode::ClampToEdge,
        address_mode_v: AddressMode::ClampToEdge,
        address_mode_w: AddressMode::ClampToEdge,
        mag_filter: FilterMode::Linear,
        min_filter: FilterMode::Nearest,
        mipmap_filter: FilterMode::Nearest,
    }
}

fn expected_usage() -> TextureUsages {
    TextureUsages {
        copy_src: false,
        copy_dst: true,
        texture_binding: true,
        storage_binding: false,
        render_attachment: false,
    }
}

#[test]
fn from_bytes_decodes_an_rgba_image() {
    let texture = TextureState::from_bytes(&rgba_2x2(), ImageFormat::Png, "two by two")
        .expect("the image decodes");
    assert_eq!(texture.texture.label.as_deref(), Some("two by two"));
    assert_eq!(
        texture.texture.size,
        Extent3d { width: 2, height: 2, depth_or_array_layers: 1 }
    );
    assert_eq!(texture.texture.mip_level_count, 1);
    assert_eq!(texture.texture.sample_count, 1);
    assert_eq!(texture.texture.dimension, TextureDimension::D2);
    assert_eq!(texture.texture.format, TextureFormat::Rgba8UnormSrgb);
    assert_eq!(texture.texture.usage, expected_usage());
    assert_eq!(
        texture.data,
        vec![255, 0, 0, 255, 0, 255, 0, 128, 0, 0, 255, 64, 10, 20, 30, 40]
    );
    assert_eq!(
        texture.layout,
        ImageDataLayout { offset: 0, bytes_per_row: Some(8), rows_per_image: Some(2) }
    );
    assert_eq!(texture.sampler, expected_sampler());
}

#[test]
fn from_bytes_converts_gray_to_rgba() {
    let texture = TextureState::from_bytes(&gray_3x1(), ImageFormat::Png, "gray")
        .expect("the image decodes");
    assert_eq!(
        texture.texture.size,
        Extent3d { width: 3, height: 1, depth_or_array_layers: 1 }
    );
    assert_eq!(
        texture.data,
        vec![0, 0, 0, 255, 127, 127, 127, 255, 255, 255, 255, 255]
    );
    assert_eq!(
        texture.layout,
        ImageDataLayout { offset: 0, bytes_per_row: Some(12), rows_per_image: Some(1) }
    );
    assert_eq!(texture.data.len(), 4 * 3 * 1);
}

#[test]
fn from_bytes_is_not_the_identity_on_its_input() {
    let bytes = rgba_2x2();
    let texture =
        TextureState::from_bytes(&bytes, ImageFormat::Png, "x").expect("the image decodes");
    assert_ne!(texture.data, bytes);
    assert_eq!(texture.data.len(), 16);
}

#[test]
fn from_bytes_rejects_what_is_no_image() {
    assert!(matches!(
        TextureState::from_bytes(&[], ImageFormat::Png, "empty"),
        Err(Error::ImageImageError(_))
    ));
    assert!(matches!(
        TextureState::from_bytes(&[1, 2, 3, 4, 5], ImageFormat::Png, "noise"),
        Err(Error::ImageImageError(_))
    ));
    let mut truncated = rgba_2x2();
    truncated.truncate(40);
    assert!(matches!(
        TextureState::from_bytes(&truncated, ImageFormat::Png, "truncated"),
        Err(Error::ImageImageError(_))
    ));
}

#[test]
fn from_bytes_gives_the_same_for_the_same_bytes() {
    let a = TextureState::from_bytes(&rgba_2x2(), ImageFormat::Png, "a").expect("decodes");
    let b = TextureState::from_bytes(&rgba_2x2(), ImageFormat::Png, "a").expect("decodes");
    assert_eq!(a.data, b.data);
    assert_eq!(a.texture.size, b.texture.size);
    assert_eq!(a.layout, b.layout);
}

#[test]
fn from_image_describes_the_upload() {
    let pixels: Vec<u8> = (0..24).collect();
    let img = RgbaImage::from_raw(3, 2, pixels.clone()).expect("six pixels of four bytes");
    let texture = TextureState::from_image(&img, Some("label")).expect("no failing case");
    assert_eq!(texture.texture.label.as_deref(), Some("label"));
    assert_eq!(
        texture.texture.size,
        Extent3d { width: 3, height: 2, depth_or_array_layers: 1 }
    );
    assert_eq!(texture.data, pixels);
    assert_eq!(
        texture.layout,
        ImageDataLayout { offset: 0, bytes_per_row: Some(12), rows_per_image: Some(2) }
    );
    assert_eq!(texture.texture.usage, expected_usage());
    assert_eq!(texture.sampler, expected_sampler());
    let rows = texture.layout.rows_per_image.unwrap() as usize;
    let row = texture.layout.bytes_per_row.unwrap() as usize;
    assert_eq!(texture.data.len(), rows * row);
}

#[test]
fn from_image_without_label() {
    let img = RgbaImage::from_raw(1, 1, vec![9, 8, 7, 6]).expect("one pixel");
    let texture = TextureState::from_image(&img, None).expect("no failing case");
    assert_eq!(texture.texture.label, None);
    assert_eq!(texture.data, vec![9, 8, 7, 6]);
}

#[test]
fn from_image_of_an_empty_image_has_no_rows() {
    let img = RgbaImage::from_raw(0, 0, vec![]).expect("no pixel");
    let texture = TextureState::from_image(&img, None).expect("no failing case");
    assert_eq!(
        texture.layout,
        ImageDataLayout { offset: 0, bytes_per_row: None, rows_per_image: None }
    );
    let img = RgbaImage::from_raw(5, 0, vec![]).expect("no pixel");
    let texture = TextureState::from_image(&img, None).expect("no failing case");
    assert_eq!(
        texture.layout,
        ImageDataLayout { offset: 0, bytes_per_row: Some(20), rows_per_image: None }
    );
}

#[test]
fn rgba_image_wants_four_bytes_for_each_pixel() {
    assert!(RgbaImage::from_raw(2, 2, vec![0; 16]).is_some());
    assert!(RgbaImage::from_raw(2, 2, vec![0; 15]).is_none());
    assert!(RgbaImage::from_raw(2, 2, vec![0; 17]).is_none());
    assert!(RgbaImage::from_raw(0, 7, vec![]).is_some());
    assert!(RgbaImage::from_raw(0, 7, vec![0]).is_none());
    assert!(RgbaImage::from_raw(u32::MAX, u32::MAX, vec![0; 4]).is_none());
}

#[test]
fn rgba_image_gives_back_what_it_holds() {
    let img = RgbaImage::from_raw(1, 2, vec![1, 2, 3, 4, 5, 6, 7, 8]).expect("two pixels");
    assert_eq!(img.width(), 1);
    assert_eq!(img.height(), 2);
    assert_eq!(img.as_raw(), &vec![1, 2, 3, 4, 5, 6, 7, 8]);
    assert_eq!(img.into_raw(), vec![1, 2, 3, 4, 5, 6, 7, 8]);
}

#[test]
fn non_zero_drops_zero() {
    assert_eq!(non_zero(0), None);
    assert_eq!(non_zero(1), Some(1));
    assert_eq!(non_zero(u32::MAX), Some(u32::MAX));
}
