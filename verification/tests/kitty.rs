use mdcat::terminal::kitty::{is_kitty, ColorType, KittyFormat, KittyImage, KittyImages};
use mdcat::terminal::size::PixelSize;

#[test]
fn kitty_is_told_by_its_term_name() {
    assert!(is_kitty(Some("xterm-kitty")));
    assert!(!is_kitty(Some("xterm-256color")));
    assert!(!is_kitty(None));
}

#[test]
fn control_data_values_of_the_formats() {
    assert_eq!(KittyFormat::PNG.control_data_value(), "100");
    assert_eq!(KittyFormat::RGB.control_data_value(), "24");
    assert_eq!(KittyFormat::RGBA.control_data_value(), "32");
}

#[test]
fn a_small_png_goes_in_one_command() {
    let image = KittyImages.render_as_png(b"hello world".to_vec());
    assert_eq!(image.format, KittyFormat::PNG);
    assert_eq!(image.size, None);
    let mut out = String::new();
    KittyImages.write_inline_image(&mut out, image);
    assert_eq!(out, "\x1b_Ga=T,t=d,f=100,m=0;aGVsbG8gd29ybGQ=\x1b\\");
}

#[test]
fn pixels_carry_their_dimensions() {
    let image = KittyImage {
        contents: vec![0, 0, 0, 255, 255, 255],
        format: KittyFormat::RGB,
        size: Some(PixelSize { x: 2, y: 1 }),
    };
    let mut out = String::new();
    KittyImages.write_inline_image(&mut out, image);
    assert_eq!(out, "\x1b_Ga=T,t=d,f=24,s=2,v=1,m=0;AAAA////\x1b\\");
}

#[test]
fn long_data_is_sent_in_pieces_of_4096_characters() {
    // 3073 bytes encode to 4100 characters: one full piece and four more.
    let image = KittyImages.render_as_png(vec![0u8; 3073]);
    let mut out = String::new();
    KittyImages.write_inline_image(&mut out, image);
    let first = format!("\x1b_Ga=T,t=d,f=100,m=1;{}\x1b\\", "A".repeat(4096));
    let second = "\x1b_Gm=0;AA==\x1b\\";
    assert_eq!(out, format!("{}{}", first, second));
}

#[test]
fn no_data_gives_no_command() {
    let image = KittyImages.render_as_png(Vec::new());
    let mut out = String::from("before");
    KittyImages.write_inline_image(&mut out, image);
    assert_eq!(out, "before");
}

fn encoded(image: image::DynamicImage, format: image::ImageOutputFormat) -> Vec<u8> {
    let mut bytes = Vec::new();
    image.write_to(&mut bytes, format).unwrap();
    bytes
}

#[test]
fn a_png_that_fits_is_sent_as_it_is() {
    let contents = encoded(image::DynamicImage::new_rgb8(3, 2), image::ImageOutputFormat::Png);
    let limit = PixelSize { x: 3, y: 2 };
    let image = KittyImages.read_and_render(contents.clone(), true, limit).unwrap();
    assert_eq!(image, KittyImage { contents, format: KittyFormat::PNG, size: None });
}

#[test]
fn another_image_that_fits_is_sent_as_pixels() {
    let contents = encoded(image::DynamicImage::new_rgb8(3, 2), image::ImageOutputFormat::Png);
    let limit = PixelSize { x: 30, y: 20 };
    let image = KittyImages.read_and_render(contents, false, limit).unwrap();
    assert_eq!(image.format, KittyFormat::RGB);
    assert_eq!(image.size, Some(PixelSize { x: 3, y: 2 }));
    assert_eq!(image.contents, vec![0u8; 3 * 2 * 3]);
}

#[test]
fn an_image_with_alpha_is_sent_with_four_bytes_to_the_pixel() {
    let contents = encoded(image::DynamicImage::new_rgba8(2, 2), image::ImageOutputFormat::Png);
    let limit = PixelSize { x: 30, y: 20 };
    let image = KittyImages.read_and_render(contents, false, limit).unwrap();
    assert_eq!(image.format, KittyFormat::RGBA);
    assert_eq!(image.size, Some(PixelSize { x: 2, y: 2 }));
    assert_eq!(image.contents.len(), 2 * 2 * 4);
}

#[test]
fn an_image_that_is_too_large_is_scaled_down() {
    let contents = encoded(image::DynamicImage::new_rgb8(40, 20), image::ImageOutputFormat::Png);
    let limit = PixelSize { x: 20, y: 20 };
    let image = KittyImages.read_and_render(contents, true, limit).unwrap();
    assert_eq!(image.format, KittyFormat::RGB);
    assert_eq!(image.size, Some(PixelSize { x: 20, y: 10 }));
    assert_eq!(image.contents.len(), 20 * 10 * 3);
}

#[test]
fn an_image_that_is_too_high_is_scaled_down() {
    let contents = encoded(image::DynamicImage::new_luma8(10, 30), image::ImageOutputFormat::Bmp);
    let limit = PixelSize { x: 10, y: 15 };
    let image = KittyImages.read_and_render(contents, false, limit).unwrap();
    assert_eq!(image.size, Some(PixelSize { x: 5, y: 15 }));
    assert_eq!(image.contents.len(), 5 * 15 * match image.format {
        KittyFormat::RGB => 3,
        _ => 4,
    });
}

#[test]
fn what_is_no_image_gives_none() {
    let limit = PixelSize { x: 30, y: 20 };
    assert_eq!(KittyImages.read_and_render(b"hello world".to_vec(), false, limit), None);
    assert_eq!(KittyImages.read_and_render(Vec::new(), true, limit), None);
}

#[test]
fn formats_follow_the_color_type() {
    for color in [ColorType::L8, ColorType::Rgb8, ColorType::L16, ColorType::Rgb16, ColorType::Bgr8] {
        assert_eq!(KittyFormat::for_color(color), KittyFormat::RGB);
    }
    for color in [
        ColorType::La8,
        ColorType::Rgba8,
        ColorType::La16,
        ColorType::Rgba16,
        ColorType::Bgra8,
        ColorType::Other,
    ] {
        assert_eq!(KittyFormat::for_color(color), KittyFormat::RGBA);
    }
}

#[test]
fn decoded_images_tell_their_header() {
    let contents = encoded(image::DynamicImage::new_rgba8(5, 7), image::ImageOutputFormat::Png);
    let image = mdcat::terminal::kitty::DecodedImage::from_memory(&contents).unwrap();
    let header = image.header();
    assert_eq!((header.color, header.width, header.height), (ColorType::Rgba8, 5, 7));
    assert!(KittyImages.can_render(&image, PixelSize { x: 5, y: 7 }));
    assert!(KittyImages.can_render(&image, PixelSize { x: 0, y: 0 }));
    let scaled = KittyImages.render_as_rgb_or_rgba(image, PixelSize { x: 5, y: 1 });
    assert_eq!(scaled.format, KittyFormat::RGBA);
    assert_eq!(scaled.size, Some(PixelSize { x: 1, y: 1 }));
    assert!(mdcat::terminal::kitty::DecodedImage::from_memory(b"no image").is_none());
}

#[test]
fn data_of_4096_characters_go_in_one_command() {
    let data = "x".repeat(4096);
    let mut out = String::new();
    KittyImages.write_chunked(&mut out, String::from("k=1,"), &data);
    assert_eq!(out, format!("\x1b_Gk=1,m=0;{}\x1b\\", data));
}

#[test]
fn data_of_4097_characters_go_in_two_commands() {
    let data = format!("{}y", "x".repeat(4096));
    let mut out = String::new();
    KittyImages.write_chunked(&mut out, String::from("k=1,"), &data);
    assert_eq!(out, format!("\x1b_Gk=1,m=1;{}\x1b\\\x1b_Gm=0;y\x1b\\", "x".repeat(4096)));
}

#[test]
fn every_command_but_the_last_says_that_more_follows() {
    let data = "z".repeat(3 * 4096);
    let mut out = String::from(">");
    KittyImages.write_chunked(&mut out, String::new(), &data);
    let piece = "z".repeat(4096);
    assert_eq!(
        out,
        format!(
            ">\x1b_Gm=1;{}\x1b\\\x1b_Gm=1;{}\x1b\\\x1b_Gm=0;{}\x1b\\",
            piece, piece, piece
        )
    );
}

#[test]
fn pixels_that_fit_are_sent_as_they_are() {
    let contents = encoded(image::DynamicImage::new_rgb8(2, 1), image::ImageOutputFormat::Png);
    let image = mdcat::terminal::kitty::DecodedImage::from_memory(&contents).unwrap();
    let sent = KittyImages.render_as_rgb_or_rgba(image, PixelSize { x: 10, y: 10 });
    assert_eq!(
        sent,
        KittyImage {
            contents: vec![0u8; 6],
            format: KittyFormat::RGB,
            size: Some(PixelSize { x: 2, y: 1 }),
        }
    );
}

#[test]
fn scaled_pixels_keep_the_proportion_and_fill_their_size() {
    for (width, height, limit, expected) in [
        (40u32, 20u32, PixelSize { x: 20, y: 20 }, (20usize, 10usize)),
        (30, 90, PixelSize { x: 100, y: 30 }, (10, 30)),
        (7, 5, PixelSize { x: 3, y: 3 }, (3, 2)),
        (100, 1, PixelSize { x: 10, y: 10 }, (10, 1)),
        (9, 9, PixelSize { x: 9, y: 4 }, (4, 4)),
    ] {
        let contents =
            encoded(image::DynamicImage::new_rgba8(width, height), image::ImageOutputFormat::Png);
        let sent = KittyImages.read_and_render(contents, true, limit).unwrap();
        assert_eq!(sent.format, KittyFormat::RGBA);
        assert_eq!(sent.size, Some(PixelSize { x: expected.0, y: expected.1 }));
        assert_eq!(sent.contents.len(), expected.0 * expected.1 * 4);
        assert!(expected.0 <= limit.x && expected.1 <= limit.y);
        assert!(expected.0 <= width as usize && expected.1 <= height as usize);
    }
}
