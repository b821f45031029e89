use swappy::codec::DecodeError;
use swappy::loader::{choose_source, load, Loaded, Source};

/// A valid 2x3 RGBA PNG whose six pixels are red, green, blue, yellow,
/// cyan, magenta in row-major order.
fn png_2x3() -> Vec<u8> {
    vec![
        137, 80, 78, 71, 13, 10, 26, 10, 0, 0, 0, 13, 73, 72, 68, 82, 0, 0, 0, 2, 0, 0, 0, 3, 8,
        6, 0, 0, 0, 185, 234, 222, 129, 0, 0, 0, 22, 73, 68, 65, 84, 120, 156, 99, 248, 207, 192,
        240, 31, 12, 129, 52, 16, 128, 24, 16, 250, 63, 0, 177, 105, 14, 242, 162, 235, 241, 81,
        0, 0, 0, 0, 73, 69, 78, 68, 174, 66, 96, 130,
    ]
}

/// A valid 1x1 24-bit BMP holding a single red pixel.
fn bmp_1x1_red() -> Vec<u8> {
    vec![
        66, 77, 58, 0, 0, 0, 0, 0, 0, 0, 54, 0, 0, 0, 40, 0, 0, 0, 1, 0, 0, 0, 1, 0, 0, 0, 1, 0,
        24, 0, 0, 0, 0, 0, 4, 0, 0, 0, 19, 11, 0, 0, 19, 11, 0, 0, 0, 0, 0, 0, 0, 0, 0, 0, 0, 0,
        255, 0,
    ]
}

#[test]
fn decoded_png_has_known_dimensions() {
    match load(png_2x3()) {
        Ok(Loaded::Image(bm)) => {
            assert_eq!(bm.width(), 2);
            assert_eq!(bm.height(), 3);
            assert_eq!(bm.pixels().len(), 2 * 3 * 4);
        }
        _ => panic!("a valid PNG must decode to a bitmap"),
    }
}

#[test]
fn decoded_png_has_known_pixels() {
    match load(png_2x3()) {
        Ok(Loaded::Image(bm)) => {
            let expected: Vec<u8> = vec![
                255, 0, 0, 255, 0, 255, 0, 255, 0, 0, 255, 255, 255, 255, 0, 255, 0, 255, 255,
                255, 255, 0, 255, 255,
            ];
            assert_eq!(bm.pixels(), &expected);
        }
        _ => panic!("a valid PNG must decode to a bitmap"),
    }
}

#[test]
fn decoded_bmp_pixel_is_converted_to_rgba() {
    let bytes = bmp_1x1_red();
    match load(bytes) {
        Ok(Loaded::Image(bm)) => {
            assert_eq!(bm.width(), 1);
            assert_eq!(bm.height(), 1);
            assert_eq!(bm.pixels(), &vec![255, 0, 0, 255]);
        }
        _ => panic!("a valid BMP must decode to a bitmap"),
    }
}

#[test]
fn empty_input_is_a_clean_no_op() {
    match load(Vec::new()) {
        Ok(Loaded::Empty) => {}
        _ => panic!("zero bytes must load as the empty outcome"),
    }
}

#[test]
fn corrupt_bytes_are_rejected() {
    let garbage: Vec<u8> = vec![1, 2, 3, 4, 5, 6, 7, 8, 9, 10];
    match load(garbage) {
        Err(DecodeError::InvalidImage) => {}
        _ => panic!("unrecognizable bytes must fail to decode"),
    }
}

#[test]
fn truncated_image_is_rejected() {
    let mut bytes = png_2x3();
    bytes.truncate(40);
    match load(bytes) {
        Err(DecodeError::InvalidImage) => {}
        _ => panic!("truncated image bytes must fail to decode"),
    }
}

#[test]
fn file_bytes_and_stdin_bytes_load_identically() {
    let from_file = load(png_2x3());
    let from_stdin = load(png_2x3());
    match (from_file, from_stdin) {
        (Ok(Loaded::Image(a)), Ok(Loaded::Image(b))) => {
            assert_eq!(a.width(), b.width());
            assert_eq!(a.height(), b.height());
            assert_eq!(a.pixels(), b.pixels());
        }
        _ => panic!("the same bytes must load the same way from either source"),
    }
}

#[test]
fn no_argument_selects_stdin() {
    assert_eq!(choose_source(None), Source::Stdin);
}

#[test]
fn dash_sentinel_selects_stdin() {
    assert_eq!(choose_source(Some("-".to_owned())), Source::Stdin);
}

#[test]
fn other_path_selects_the_file() {
    assert_eq!(
        choose_source(Some("pic.png".to_owned())),
        Source::File("pic.png".to_owned())
    );
}
