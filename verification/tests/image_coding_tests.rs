use screen_grabber::image_coding::{
    available_formats, crop_image, save_method, ImageFormat, Pixels, SaveImageError, SaveMethod,
    GIF_ENCODER_SPEED,
};
use screen_grabber::screens_manager::ScreensManager;
use screen_grabber::itc::get_animations_delay;
use screen_grabber::rect_selection::ExitCode;

#[test]
fn format_names() {
    assert_eq!(ImageFormat::Png.name(), "Png");
    assert_eq!(ImageFormat::Jpeg.name(), "Jpeg");
    assert_eq!(ImageFormat::Gif.name(), "Gif");
}

#[test]
fn formats_are_offered_in_order() {
    assert_eq!(
        ImageFormat::available_formats(),
        vec![ImageFormat::Png, ImageFormat::Jpeg, ImageFormat::Gif]
    );
    assert_eq!(available_formats(), vec!["Png", "Jpeg", "Gif"]);
}

#[test]
fn extensions_in_three_spellings() {
    for (s, f) in [
        ("Png", ImageFormat::Png),
        ("PNG", ImageFormat::Png),
        ("png", ImageFormat::Png),
        ("Jpeg", ImageFormat::Jpeg),
        ("JPEG", ImageFormat::Jpeg),
        ("jpeg", ImageFormat::Jpeg),
        ("Gif", ImageFormat::Gif),
        ("gif", ImageFormat::Gif),
        ("GIF", ImageFormat::Gif),
    ] {
        assert_eq!(ImageFormat::try_from_extension(s), Some(f));
        assert_eq!(ImageFormat::from_extension(s), f);
    }
    assert_eq!(ImageFormat::try_from_extension("jpg"), None);
    assert_eq!(ImageFormat::try_from_extension("pNg"), None);
    assert_eq!(ImageFormat::try_from_extension(""), None);
}

#[test]
fn label_round_trip() {
    for f in ImageFormat::available_formats() {
        assert_eq!(ImageFormat::try_from_extension(f.name()), Some(f));
    }
}

#[test]
fn save_method_per_extension() {
    assert_eq!(save_method(Some("Gif")), Ok(SaveMethod::GifWithSpeed(30)));
    assert_eq!(save_method(Some("gif")), Ok(SaveMethod::GifWithSpeed(GIF_ENCODER_SPEED)));
    assert_eq!(save_method(Some("png")), Ok(SaveMethod::ByExtension(ImageFormat::Png)));
    assert_eq!(save_method(Some("JPEG")), Ok(SaveMethod::ByExtension(ImageFormat::Jpeg)));
}

#[test]
fn save_method_errors() {
    assert_eq!(save_method(None), Err(SaveImageError::MissingExtension));
    assert_eq!(save_method(Some("bmp")), Err(SaveImageError::InvalidExtension));
    assert_eq!(SaveImageError::MissingExtension.message(), "Missing file extension");
    assert_eq!(SaveImageError::InvalidExtension.message(), "Invalid file extension");
}

#[test]
fn animation_delays() {
    assert_eq!(get_animations_delay("windows"), 250);
    assert_eq!(get_animations_delay("linux"), 250);
    assert_eq!(get_animations_delay("macos"), 1000);
    assert_eq!(get_animations_delay(""), 1000);
}

#[test]
fn exit_codes() {
    assert_eq!(ExitCode::ABORT.code(), 1);
    assert_eq!(ExitCode::SELECTED.code(), 0);
    assert_eq!(ExitCode::ERROR.code(), -1);
}

fn numbered(width: u32, height: u32) -> Pixels {
    let mut data = Vec::new();
    for y in 0..height {
        for x in 0..width {
            data.extend_from_slice(&[x as u8, y as u8, 7, 255]);
        }
    }
    Pixels { width, height, data }
}

#[test]
fn cropping_copies_the_area() {
    let img = numbered(4, 3);
    let c = crop_image(&img, 1, 1, 2, 2);
    assert_eq!((c.width, c.height), (2, 2));
    assert_eq!(c.data, vec![1, 1, 7, 255, 2, 1, 7, 255, 1, 2, 7, 255, 2, 2, 7, 255]);
}

#[test]
fn cropping_is_clamped_to_the_image() {
    let img = numbered(4, 3);
    let c = crop_image(&img, 3, 2, 10, 10);
    assert_eq!((c.width, c.height), (1, 1));
    assert_eq!(c.data, vec![3, 2, 7, 255]);
    let outside = crop_image(&img, 9, 9, 2, 2);
    assert_eq!((outside.width, outside.height), (0, 0));
    assert!(outside.data.is_empty());
}

#[test]
fn icons_keep_the_aspect_ratio() {
    let sm = ScreensManager::new(4);
    let icon = sm.icon_for(&numbered(8, 6));
    assert_eq!((icon.width, icon.height), (4, 3));
    assert_eq!(icon.data.len(), 4 * 4 * 3);
}
