use image::{DynamicImage, ImageBuffer, Luma, Rgba};
use sprite_render::texture::{
    load_sprite, sampler_settings, sprite_for, upload_layout, AddressMode, BindGroupEntry,
    DecodedImage, FilterMode, LoadError, Resource, SamplerSettings, TextureDimension,
    TextureFormat, TextureSettings, UploadLayout,
};
use sprite_render::surface::TextureUsage;

fn png(image: &DynamicImage) -> Option<Vec<u8>> {
    let mut bytes = Vec::new();
    image.write_to(&mut std::io::Cursor::new(&mut bytes), image::ImageFormat::Png).unwrap();
    Some(bytes)
}

fn red_64() -> Option<Vec<u8>> {
    png(&DynamicImage::ImageRgba8(ImageBuffer::from_pixel(64, 64, Rgba([255u8, 0, 0, 255]))))
}

#[test]
fn loading_a_missing_file_is_a_decode_error() {
    match load_sprite("no/such/directory/no-such-image.png", None) {
        Err(e) => assert_eq!(e, LoadError::ImageDecodeError),
        Ok(_) => panic!("a sprite was loaded from a file that does not exist"),
    }
}

#[test]
fn loading_what_is_no_image_is_a_decode_error() {
    assert_eq!(load_sprite("sprite.png", Some(vec![])).err(), Some(LoadError::ImageDecodeError));
    assert_eq!(
        load_sprite("sprite.png", Some(vec![1, 2, 3, 4, 5, 6, 7, 8])).err(),
        Some(LoadError::ImageDecodeError)
    );
}

#[test]
fn loading_goes_by_the_extension_of_the_path() {
    assert!(load_sprite("sprite.png", red_64()).is_ok());
    assert_eq!(load_sprite("sprite.jpg", red_64()).err(), Some(LoadError::ImageDecodeError));
    assert_eq!(load_sprite("sprite.unknown", red_64()).err(), Some(LoadError::ImageDecodeError));
    assert_eq!(load_sprite("sprite", red_64()).err(), Some(LoadError::ImageDecodeError));
}

#[test]
fn loading_a_jpeg_file_is_a_decode_error() {
    let start_of_image = vec![0xff, 0xd8, 0xff, 0xe0, 0x00, 0x10, 0x4a, 0x46, 0x49, 0x46, 0x00];
    assert_eq!(
        load_sprite("photo.jpg", Some(start_of_image.clone())).err(),
        Some(LoadError::ImageDecodeError)
    );
    assert_eq!(
        load_sprite("photo.jpeg", Some(start_of_image.clone())).err(),
        Some(LoadError::ImageDecodeError)
    );
    assert_eq!(
        load_sprite("photo.JPG", Some(start_of_image)).err(),
        Some(LoadError::ImageDecodeError)
    );
}

#[test]
fn loading_bmp_and_gif_files_works() {
    let image = DynamicImage::ImageRgba8(ImageBuffer::from_pixel(2, 1, Rgba([9u8, 8, 7, 255])));
    let mut bmp = Vec::new();
    image.write_to(&mut std::io::Cursor::new(&mut bmp), image::ImageFormat::Bmp).unwrap();
    let sprite = load_sprite("two.bmp", Some(bmp)).unwrap();
    assert_eq!(sprite.pixels, vec![9, 8, 7, 255, 9, 8, 7, 255]);
    let mut gif = Vec::new();
    image.write_to(&mut std::io::Cursor::new(&mut gif), image::ImageFormat::Gif).unwrap();
    let sprite = load_sprite("two.gif", Some(gif)).unwrap();
    assert_eq!((sprite.texture.width, sprite.texture.height), (2, 1));
    assert_eq!(sprite.pixels.len(), 8);
}

#[test]
fn loading_an_image_gives_a_texture_of_its_size() {
    let sprite = load_sprite("red.png", red_64()).unwrap();
    assert_eq!(
        sprite.texture,
        TextureSettings {
            width: 64,
            height: 64,
            depth_or_array_layers: 1,
            mip_level_count: 1,
            sample_count: 1,
            dimension: TextureDimension::D2,
            format: TextureFormat::Rgba8UnormSrgb,
            usage: TextureUsage {
                copy_src: false,
                copy_dst: true,
                texture_binding: true,
                storage_binding: false,
                render_attachment: false,
            },
        }
    );
    assert_eq!(
        sprite.upload,
        UploadLayout { offset: 0, bytes_per_row: Some(256), rows_per_image: Some(64) }
    );
    assert_eq!(sprite.pixels.len(), 4 * 64 * 64);
    assert_eq!(&sprite.pixels[0..4], &[255, 0, 0, 255]);
    assert_eq!(&sprite.pixels[4 * 64 * 32 + 4 * 32..4 * 64 * 32 + 4 * 33], &[255, 0, 0, 255]);
}

#[test]
fn loading_a_grey_image_expands_it_to_rgba() {
    let grey = DynamicImage::ImageLuma8(ImageBuffer::from_pixel(3, 2, Luma([7u8])));
    let sprite = load_sprite("grey.png", png(&grey)).unwrap();
    assert_eq!(sprite.texture.width, 3);
    assert_eq!(sprite.texture.height, 2);
    assert_eq!(sprite.texture.depth_or_array_layers, 1);
    assert_eq!(sprite.upload.bytes_per_row, Some(12));
    assert_eq!(sprite.upload.rows_per_image, Some(2));
    assert_eq!(sprite.pixels, [7u8, 7, 7, 255].repeat(6));
}

#[test]
fn loading_keeps_the_order_of_the_pixels() {
    let mut buffer = ImageBuffer::from_pixel(2, 2, Rgba([0u8, 0, 0, 255]));
    buffer.put_pixel(1, 0, Rgba([10, 20, 30, 40]));
    buffer.put_pixel(0, 1, Rgba([50, 60, 70, 80]));
    let sprite = load_sprite("four.png", png(&DynamicImage::ImageRgba8(buffer))).unwrap();
    assert_eq!(
        sprite.pixels,
        vec![0, 0, 0, 255, 10, 20, 30, 40, 50, 60, 70, 80, 0, 0, 0, 255]
    );
}

#[test]
fn sprite_bind_group_is_view_then_sampler() {
    let sprite = load_sprite("red.png", red_64()).unwrap();
    assert_eq!(
        sprite.bind_group,
        vec![
            BindGroupEntry { binding: 0, resource: Resource::TextureView },
            BindGroupEntry { binding: 1, resource: Resource::Sampler },
        ]
    );
    assert_eq!(sprite.sampler, sampler_settings());
}

#[test]
fn sampler_clamps_and_filters_linearly() {
    assert_eq!(
        sampler_settings(),
        SamplerSettings {
            address_mode_u: AddressMode::ClampToEdge,
            address_mode_v: AddressMode::ClampToEdge,
            address_mode_w: AddressMode::ClampToEdge,
            mag_filter: FilterMode::Linear,
            min_filter: FilterMode::Linear,
            mipmap_filter: FilterMode::Nearest,
        }
    );
}

#[test]
fn upload_layout_is_four_bytes_a_pixel() {
    assert_eq!(
        upload_layout(64, 32),
        UploadLayout { offset: 0, bytes_per_row: Some(256), rows_per_image: Some(32) }
    );
    assert_eq!(
        upload_layout(0, 0),
        UploadLayout { offset: 0, bytes_per_row: None, rows_per_image: None }
    );
    assert_eq!(upload_layout(u32::MAX, 1).bytes_per_row, Some(4 * (u32::MAX as u64)));
}

#[test]
fn sprite_for_takes_the_image_as_it_is() {
    let image = DecodedImage { width: 1, height: 2, pixels: vec![1, 2, 3, 4, 5, 6, 7, 8] };
    let sprite = sprite_for(image);
    assert_eq!(sprite.texture.width, 1);
    assert_eq!(sprite.texture.height, 2);
    assert_eq!(sprite.upload.bytes_per_row, Some(4));
    assert_eq!(sprite.upload.rows_per_image, Some(2));
    assert_eq!(sprite.pixels, vec![1, 2, 3, 4, 5, 6, 7, 8]);
}
