use bing_wallpaper_lib::thumbnails::{
    cached_image_is_valid, cached_thumbnail_is_valid, thumbnail_jpeg, thumbnail_step,
    ThumbnailStep, THUMBNAIL_HEIGHT, THUMBNAIL_WIDTH,
};

fn png_of_size(width: u32, height: u32) -> Vec<u8> {
    let image = image::DynamicImage::ImageRgb8(image::RgbImage::new(width, height));
    let mut out = std::io::Cursor::new(Vec::new());
    image.write_to(&mut out, image::ImageFormat::Png).unwrap();
    out.into_inner()
}

#[test]
fn thumbnails_are_jpeg_within_the_thumbnail_box() {
    let source = png_of_size(880, 496);
    let thumbnail = thumbnail_jpeg(&source).unwrap();
    assert_ne!(thumbnail, source);
    assert_eq!(&thumbnail[..2], &[0xff, 0xd8]);
    let decoded = image::load_from_memory(&thumbnail).unwrap();
    assert_eq!((decoded.width(), decoded.height()), (THUMBNAIL_WIDTH, THUMBNAIL_HEIGHT));
    assert!(cached_image_is_valid(&thumbnail));
}

#[test]
fn corrupt_contents_give_no_thumbnail_and_are_not_valid() {
    assert!(thumbnail_jpeg(b"not a picture").is_none());
    assert!(thumbnail_jpeg(&[]).is_none());
    assert!(!cached_image_is_valid(b"not a picture"));
    let source = png_of_size(40, 20);
    assert!(cached_image_is_valid(&source));
    assert!(!cached_image_is_valid(&source[..10]));
}

#[test]
fn cached_thumbnails_need_both_sides() {
    assert!(cached_thumbnail_is_valid(Some((440, 248))));
    assert!(!cached_thumbnail_is_valid(Some((0, 248))));
    assert!(!cached_thumbnail_is_valid(Some((440, 0))));
    assert!(!cached_thumbnail_is_valid(None));
}

#[test]
fn thumbnail_requests_are_refused_then_served_then_made() {
    assert_eq!(thumbnail_step(true, true, true), ThumbnailStep::Downloading);
    assert_eq!(thumbnail_step(true, false, false), ThumbnailStep::Downloading);
    assert_eq!(thumbnail_step(false, false, true), ThumbnailStep::Changed);
    assert_eq!(thumbnail_step(false, true, true), ThumbnailStep::UseCached);
    assert_eq!(thumbnail_step(false, true, false), ThumbnailStep::Generate);
}
