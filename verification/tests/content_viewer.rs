use toshokan::component::content_viewer::preview::{
    downsample, load_image, rgb_code, scale_of, ImageGrid, RgbImage,
};
use toshokan::component::content_viewer::{Body, ContentViewer};

fn gradient(width: u32, height: u32) -> RgbImage {
    let mut data = Vec::new();
    for y in 0..height {
        for x in 0..width {
            data.push((x % 251) as u8);
            data.push((y % 241) as u8);
            data.push(((x + y) % 239) as u8);
        }
    }
    RgbImage::new(width, height, data).unwrap()
}

fn expected(x: u32, y: u32) -> (u8, u8, u8) {
    ((x % 251) as u8, (y % 241) as u8, ((x + y) % 239) as u8)
}

#[test]
fn image_ext_recognition() {
    for name in ["a.PNG", "b.jpg", "c.JPEG", "d.gif", "e.bmp", "f.webp"] {
        assert!(ContentViewer::is_image_name(name));
    }
    for name in ["a.txt", "b.md", "c.rs"] {
        assert!(!ContentViewer::is_image_name(name));
    }
}

#[test]
fn extension_case_is_ignored() {
    for name in ["IMG.PNG", "img.png", "img.Png"] {
        assert!(ContentViewer::is_image_name(name));
    }
    assert_eq!(
        ContentViewer::is_image_name("Photo.JpEg"),
        ContentViewer::is_image_name("photo.jpeg")
    );
    assert_eq!(
        ContentViewer::is_image_name("NOTES.TXT"),
        ContentViewer::is_image_name("notes.txt")
    );
}

#[test]
fn extension_edge_cases() {
    assert!(ContentViewer::is_image_name(".png"));
    assert!(ContentViewer::is_image_name("archive.tar.gif"));
    assert!(ContentViewer::is_image_name("\u{e9}t\u{e9}.webp"));
    assert!(!ContentViewer::is_image_name(""));
    assert!(!ContentViewer::is_image_name("png"));
    assert!(!ContentViewer::is_image_name("a.pngx"));
    assert!(!ContentViewer::is_image_name("a.png "));
    assert!(!ContentViewer::is_image_name("a.jp"));
    assert!(!ContentViewer::is_image_name("a.tiff"));
    assert!(!ContentViewer::is_image_name("a.g\u{130}f"));
}

#[test]
fn wide_picture_is_halved() {
    let image = gradient(512, 256);
    let (numerator, denominator) = scale_of(512);
    assert_eq!(numerator as f64 / denominator as f64, 2.0);
    let grid = downsample(&image);
    assert_eq!(grid.columns(), 256);
    assert_eq!(grid.rows(), 128);
    assert_eq!(grid.pixels().len(), 128);
    assert!(grid.pixels().iter().all(|row| row.len() == 256));
    assert_eq!(grid.pixel(0, 0), image.pixel(0, 0));
    assert_eq!(grid.pixel(0, 0), expected(0, 0));
    for (row, column) in [(0usize, 1usize), (1, 0), (17, 200), (127, 255)] {
        assert_eq!(grid.pixel(row, column), expected(2 * column as u32, 2 * row as u32));
    }
}

#[test]
fn narrow_picture_is_kept() {
    let image = gradient(3, 2);
    assert_eq!(scale_of(3), (3, 3));
    let grid = downsample(&image);
    assert_eq!(grid.columns(), 3);
    assert_eq!(grid.rows(), 2);
    for y in 0..2u32 {
        for x in 0..3u32 {
            assert_eq!(grid.pixel(y as usize, x as usize), expected(x, y));
        }
    }
}

#[test]
fn samples_are_nearest_neighbours() {
    let image = gradient(300, 100);
    assert_eq!(scale_of(300), (300, 256));
    let grid = downsample(&image);
    assert_eq!(grid.columns(), 256);
    assert_eq!(grid.rows(), 85);
    assert_eq!(grid.pixel(0, 255), expected(298, 0));
    assert_eq!(grid.pixel(84, 0), expected(0, 98));
    assert_eq!(grid.pixel(10, 100), expected(117, 11));
}

#[test]
fn rows_round_to_nearest() {
    assert_eq!(downsample(&gradient(512, 255)).rows(), 128);
    assert_eq!(downsample(&gradient(512, 253)).rows(), 127);
    assert_eq!(downsample(&gradient(1000, 1)).rows(), 0);
    assert_eq!(downsample(&gradient(1000, 2)).rows(), 1);
    let flat = downsample(&gradient(1000, 2));
    assert_eq!(flat.pixel(0, 255), expected(996, 0));
}

#[test]
fn picture_without_pixels() {
    let no_columns = downsample(&RgbImage::new(0, 5, Vec::new()).unwrap());
    assert_eq!(scale_of(0), (1, 1));
    assert_eq!(no_columns.columns(), 0);
    assert_eq!(no_columns.rows(), 5);
    assert!(no_columns.pixels().iter().all(|row| row.is_empty()));
    let no_rows = downsample(&RgbImage::new(7, 0, Vec::new()).unwrap());
    assert_eq!(no_rows.columns(), 7);
    assert_eq!(no_rows.rows(), 0);
    assert!(no_rows.pixels().is_empty());
}

#[test]
fn short_buffer_is_no_picture() {
    assert!(RgbImage::new(2, 2, vec![0; 11]).is_none());
    assert!(RgbImage::new(2, 2, vec![0; 12]).is_some());
    assert!(RgbImage::new(u32::MAX, u32::MAX, vec![0; 16]).is_none());
    let padded = RgbImage::new(1, 1, vec![9, 8, 7, 6, 5]).unwrap();
    assert_eq!(padded.width(), 1);
    assert_eq!(padded.height(), 1);
    assert_eq!(padded.pixel(0, 0), (9, 8, 7));
}

fn png_of(width: u32, height: u32) -> Vec<u8> {
    let picture = image::RgbImage::from_fn(width, height, |x, y| {
        let (r, g, b) = expected(x, y);
        image::Rgb([r, g, b])
    });
    let mut bytes = std::io::Cursor::new(Vec::new());
    picture.write_to(&mut bytes, image::ImageFormat::Png).unwrap();
    bytes.into_inner()
}

#[test]
fn png_is_decoded_and_previewed() {
    let bytes = png_of(600, 40);
    let grid: ImageGrid = load_image("pictures/wide.PNG", &bytes).unwrap();
    assert_eq!(grid.columns(), 256);
    assert_eq!(grid.rows(), 17);
    assert_eq!(grid.pixel(0, 0), expected(0, 0));
    assert_eq!(grid.pixel(16, 255), expected(597, 37));
    let small = load_image("small.png", &png_of(4, 3)).unwrap();
    assert_eq!((small.columns(), small.rows()), (4, 3));
    assert_eq!(small.pixel(2, 3), expected(3, 2));
}

#[test]
fn grey_picture_becomes_rgb() {
    let picture = image::GrayImage::from_fn(2, 2, |x, y| image::Luma([(10 * x + y) as u8]));
    let mut bytes = std::io::Cursor::new(Vec::new());
    picture.write_to(&mut bytes, image::ImageFormat::Bmp).unwrap();
    let grid = load_image("grey.bmp", bytes.get_ref()).unwrap();
    assert_eq!((grid.columns(), grid.rows()), (2, 2));
    assert_eq!(grid.pixel(0, 1), (10, 10, 10));
    assert_eq!(grid.pixel(1, 0), (1, 1, 1));
}

#[test]
fn undecodable_bytes_give_a_message() {
    let failure = load_image("broken.png", b"this is no picture").unwrap_err();
    assert!(!failure.is_empty());
    let truncated = png_of(8, 8);
    assert!(load_image("cut.png", &truncated[..truncated.len() / 2]).is_err());
}

#[test]
fn format_follows_the_extension() {
    let bytes = png_of(4, 4);
    assert!(load_image("picture.png", &bytes).is_ok());
    assert!(load_image("picture.gif", &bytes).is_err());
    assert!(load_image("picture.txt", &bytes).is_err());
    assert!(load_image("picture", &bytes).is_err());
}

#[test]
fn colour_code_packs_the_channels() {
    assert_eq!(rgb_code((0x12, 0x34, 0x56)), 0x123456);
    assert_eq!(rgb_code((0, 0, 0)), 0);
    assert_eq!(rgb_code((255, 255, 255)), 0xffffff);
    assert_eq!(rgb_code((1, 0, 0)), 0x010000);
}

#[test]
fn new_viewer_is_empty() {
    let viewer = ContentViewer::new();
    assert_eq!(viewer.body(), Body::Placeholder);
    assert!(viewer.file_name().is_none());
    assert!(viewer.file_path().is_none());
    assert!(viewer.content().is_none());
    assert!(viewer.error().is_none());
    assert!(viewer.image().is_none());
    assert!(!viewer.is_loading());
}

#[test]
fn text_replaces_what_was_shown() {
    let mut viewer = ContentViewer::new();
    viewer.set_image_path(Some("a.png".to_string()), "/tmp/a.png".to_string());
    viewer.image_loaded(Ok(downsample(&gradient(2, 2))));
    assert_eq!(viewer.body(), Body::Image);
    viewer.set_text(Some("notes.txt".to_string()), Some("hello".to_string()));
    assert_eq!(viewer.body(), Body::Text);
    assert_eq!(viewer.file_name().unwrap(), "notes.txt");
    assert_eq!(viewer.content().unwrap(), "hello");
    assert!(viewer.file_path().is_none());
    assert!(viewer.image().is_none());
    viewer.set_text(None, None);
    assert_eq!(viewer.body(), Body::Placeholder);
}

#[test]
fn picture_load_passes_through_loading() {
    let mut viewer = ContentViewer::new();
    viewer.set_text(Some("old.txt".to_string()), Some("old".to_string()));
    viewer.set_image_path(Some("a.png".to_string()), "/tmp/a.png".to_string());
    assert_eq!(viewer.body(), Body::Loading);
    assert!(viewer.is_loading());
    assert_eq!(viewer.file_name().unwrap(), "a.png");
    assert_eq!(viewer.file_path().unwrap(), "/tmp/a.png");
    assert!(viewer.content().is_none());
    viewer.image_loaded(Ok(downsample(&gradient(5, 4))));
    assert_eq!(viewer.body(), Body::Image);
    assert!(!viewer.is_loading());
    let grid = viewer.image().unwrap();
    assert_eq!((grid.columns(), grid.rows()), (5, 4));
    assert_eq!(viewer.file_name().unwrap(), "a.png");
}

#[test]
fn failed_picture_load_shows_the_message() {
    let mut viewer = ContentViewer::new();
    viewer.set_image_path(Some("a.png".to_string()), "/tmp/a.png".to_string());
    viewer.image_loaded(Ok(downsample(&gradient(2, 2))));
    viewer.image_loaded(Err("bad header".to_string()));
    assert_eq!(viewer.body(), Body::Failure);
    assert_eq!(viewer.error().unwrap(), "bad header");
    assert!(viewer.image().is_none());
    assert!(viewer.content().is_none());
    assert!(!viewer.is_loading());
}

#[test]
fn failed_text_read_shows_the_message() {
    let mut viewer = ContentViewer::new();
    viewer.set_text(Some("a.txt".to_string()), Some("text".to_string()));
    viewer.set_failure(Some("b.bin".to_string()), "stream did not contain valid UTF-8".to_string());
    assert_eq!(viewer.body(), Body::Failure);
    assert_eq!(viewer.file_name().unwrap(), "b.bin");
    assert_eq!(viewer.error().unwrap(), "stream did not contain valid UTF-8");
    assert!(viewer.content().is_none());
}
