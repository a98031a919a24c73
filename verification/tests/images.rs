use chat_app::images::{extension_of, image_render, ASCII_IMAGE_HEIGHT, ASCII_IMAGE_WIDTH};
use chat_app::types::{Channel, User};
use std::io::Cursor;

fn png_bytes() -> Vec<u8> {
    let mut img = image::RgbImage::new(8, 8);
    for (x, y, p) in img.enumerate_pixels_mut() {
        *p = image::Rgb([(x * 30) as u8, (y * 30) as u8, 128]);
    }
    let mut out = Cursor::new(Vec::new());
    image::DynamicImage::ImageRgb8(img).write_to(&mut out, image::ImageFormat::Png).unwrap();
    out.into_inner()
}

#[test]
fn extensions_follow_path_rules() {
    assert_eq!(extension_of("cat.png"), Some("png".to_string()));
    assert_eq!(extension_of("a.b.jpg"), Some("jpg".to_string()));
    assert_eq!(extension_of(".png"), None);
    assert_eq!(extension_of("plain"), None);
    assert_eq!(extension_of("dot."), Some(String::new()));
    for name in ["cat.png", "a.b.jpg", ".png", "plain", "..x"] {
        let std_ext = std::path::Path::new(name).extension().map(|e| e.to_string_lossy().into_owned());
        assert_eq!(extension_of(name), std_ext, "name {:?}", name);
    }
}

#[test]
fn images_are_drawn_as_text() {
    let bytes = png_bytes();
    let from = User { username: "bob".to_string(), id: 2 };
    let img = image_render(&bytes, "pic.png", from, Channel::User(1)).unwrap();
    let decoded = image::load_from_memory_with_format(&bytes, image::ImageFormat::Png).unwrap();
    let resized = decoded.resize_exact(
        ASCII_IMAGE_WIDTH,
        ASCII_IMAGE_HEIGHT,
        image::imageops::FilterType::Nearest,
    );
    let conf = artem::config::ConfigBuilder::new().color(false).build();
    assert_eq!(img.cache, artem::convert(resized, &conf));
    assert!(img.cache.lines().count() > 1);
    assert_eq!(img.from.username, "bob");
    assert_eq!(img.to, Channel::User(1));
}

#[test]
fn undecodable_images_give_none() {
    let from = User { username: "bob".to_string(), id: 2 };
    assert!(image_render(b"not an image", "pic.png", from.duplicate(), Channel::Room(1)).is_none());
    assert!(image_render(&png_bytes(), "pic", from.duplicate(), Channel::Room(1)).is_none());
    assert!(image_render(&png_bytes(), "pic.xyz", from, Channel::Room(1)).is_none());
}
