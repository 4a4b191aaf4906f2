use image::GenericImageView;
use render_host::renders::BufferUsage;
use render_host::swapchain::{State, TextureUsage};
use render_host::texture::{
    nonzero, DecodedImage, Extent3d, TexelFormat, TextureDataLayout, TextureDimension,
    TextureError,
};

/// A PNG of three by two pixels, red, green, blue and alpha, whose bytes
/// count up from 1.
fn rgba_png() -> Vec<u8> {
    vec![
        0x89, 0x50, 0x4E, 0x47, 0x0D, 0x0A, 0x1A, 0x0A, 0x00, 0x00, 0x00, 0x0D,
        0x49, 0x48, 0x44, 0x52, 0x00, 0x00, 0x00, 0x03, 0x00, 0x00, 0x00, 0x02,
        0x08, 0x06, 0x00, 0x00, 0x00, 0x9D, 0x74, 0x66, 0x1A, 0x00, 0x00, 0x00,
        0x22, 0x49, 0x44, 0x41, 0x54, 0x78, 0xDA, 0x63, 0x60, 0x64, 0x62, 0x66,
        0x61, 0x65, 0x63, 0xE7, 0xE0, 0xE4, 0xE2, 0xE6, 0x61, 0xE0, 0xE5, 0xE3,
        0x17, 0x10, 0x14, 0x12, 0x16, 0x11, 0x15, 0x13, 0x97, 0x00, 0x00, 0x0A,
        0x90, 0x01, 0x2D, 0xFA, 0x4A, 0x68, 0xCD, 0x00, 0x00, 0x00, 0x00, 0x49,
        0x45, 0x4E, 0x44, 0xAE, 0x42, 0x60, 0x82,
    ]
}

/// A PNG of two by one pixels without alpha.
fn rgb_png() -> Vec<u8> {
    vec![
        0x89, 0x50, 0x4E, 0x47, 0x0D, 0x0A, 0x1A, 0x0A, 0x00, 0x00, 0x00, 0x0D,
        0x49, 0x48, 0x44, 0x52, 0x00, 0x00, 0x00, 0x02, 0x00, 0x00, 0x00, 0x01,
        0x08, 0x02, 0x00, 0x00, 0x00, 0x7B, 0x40, 0xE8, 0xDD, 0x00, 0x00, 0x00,
        0x0F, 0x49, 0x44, 0x41, 0x54, 0x78, 0xDA, 0x63, 0x60, 0x64, 0x62, 0x66,
        0x61, 0x65, 0x03, 0x00, 0x00, 0x3F, 0x00, 0x16, 0x98, 0xC1, 0x68, 0x13,
        0x00, 0x00, 0x00, 0x00, 0x49, 0x45, 0x4E, 0x44, 0xAE, 0x42, 0x60, 0x82,
    ]
}

/// What the decoder makes of encoded bytes, as the library takes it.
fn decode(encoded: &[u8]) -> DecodedImage {
    let image = image::load_from_memory(encoded).unwrap();
    let (width, height) = image.dimensions();
    DecodedImage {
        width,
        height,
        rgba8: image.as_rgba8().map(|pixels| pixels.as_raw().clone()),
    }
}

fn sampled_and_filled() -> TextureUsage {
    TextureUsage {
        copy_src: false,
        copy_dst: true,
        sampled: true,
        storage: false,
        render_attachment: false,
    }
}

#[test]
fn nonzero_drops_zero() {
    assert_eq!(nonzero(0), None);
    assert_eq!(nonzero(1), Some(1));
    assert_eq!(nonzero(u32::MAX), Some(u32::MAX));
}

#[test]
fn create_texture_lays_rows_four_bytes_per_pixel_apart() {
    let pixels: Vec<u8> = (0..24).collect();
    let upload =
        State::create_texture(DecodedImage { width: 3, height: 2, rgba8: Some(pixels.clone()) })
            .unwrap();
    assert_eq!(upload.texture.label, "diffuse_texture");
    assert_eq!(upload.texture.size, Extent3d { width: 3, height: 2, depth: 1 });
    assert_eq!(upload.texture.mip_level_count, 1);
    assert_eq!(upload.texture.sample_count, 1);
    assert_eq!(upload.texture.dimension, TextureDimension::D2);
    assert_eq!(upload.texture.format, TexelFormat::Rgba8UnormSrgb);
    assert_eq!(upload.texture.usage, sampled_and_filled());
    assert_eq!(
        upload.layout,
        TextureDataLayout { offset: 0, bytes_per_row: Some(12), rows_per_image: Some(2) }
    );
    assert_eq!(upload.buffer.label, "temp buffer for texture");
    assert_eq!(upload.buffer.usage, BufferUsage::CopyDst);
    assert_eq!(upload.buffer.contents, pixels);
}

#[test]
fn create_texture_of_an_image_without_pixels_has_no_rows() {
    let upload =
        State::create_texture(DecodedImage { width: 0, height: 0, rgba8: Some(Vec::new()) })
            .unwrap();
    assert_eq!(upload.texture.size, Extent3d { width: 0, height: 0, depth: 1 });
    assert_eq!(
        upload.layout,
        TextureDataLayout { offset: 0, bytes_per_row: None, rows_per_image: None }
    );
    assert_eq!(upload.buffer.contents, Vec::<u8>::new());
}

#[test]
fn create_texture_refuses_rows_too_long_to_count() {
    let widest = 0x3FFF_FFFF;
    let upload = State::create_texture(DecodedImage {
        width: widest,
        height: 0,
        rgba8: Some(Vec::new()),
    })
    .unwrap();
    assert_eq!(upload.layout.bytes_per_row, Some(0xFFFF_FFFC));
    assert_eq!(
        State::create_texture(DecodedImage {
            width: widest + 1,
            height: 0,
            rgba8: Some(Vec::new()),
        }),
        Err(TextureError::TooWide)
    );
    assert_eq!(
        State::create_texture(DecodedImage {
            width: u32::MAX,
            height: 0,
            rgba8: Some(Vec::new()),
        }),
        Err(TextureError::TooWide)
    );
}

#[test]
fn create_texture_takes_what_the_decoder_made_of_an_rgba_image() {
    let image = decode(&rgba_png());
    assert!(image.rgba8.is_some());
    let upload = State::create_texture(image).unwrap();
    assert_eq!(upload.texture.size, Extent3d { width: 3, height: 2, depth: 1 });
    assert_eq!(
        upload.layout,
        TextureDataLayout { offset: 0, bytes_per_row: Some(12), rows_per_image: Some(2) }
    );
    let pixels: Vec<u8> = (1..25).collect();
    assert_eq!(upload.buffer.contents, pixels);
    assert_eq!(upload.texture.format, TexelFormat::Rgba8UnormSrgb);
    assert_eq!(upload.texture.usage, sampled_and_filled());
}

#[test]
fn an_image_without_alpha_has_no_pixels_to_hand_over() {
    let image = decode(&rgb_png());
    assert_eq!(image.width, 2);
    assert_eq!(image.height, 1);
    assert_eq!(image.rgba8, None);
}
