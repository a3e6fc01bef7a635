use bannergen::atlas::{StencilAtlas, HEIGHT, WIDTH};
use bannergen::banner::Banner;
use bannergen::bitmap::Bitmap;
use bannergen::codec::{decode_image, encode_png};
use bannergen::error::ParseError;
use bannergen::pattern::Pattern;
use bannergen::render::render;
use bannergen::service::{generate, load_patterns, pattern, ServiceError, StencilFile};

const PNG_SIGNATURE: [u8; 8] = [0x89, b'P', b'N', b'G', b'\r', b'\n', 0x1a, b'\n'];

fn stencil(seed: u32) -> Bitmap {
    let mut data = Vec::new();
    let mut x = seed;
    for _ in 0..(WIDTH * HEIGHT * 4) {
        x = x.wrapping_mul(1664525).wrapping_add(1013904223);
        let v = (x >> 24) as u8;
        data.push(if v % 3 == 0 { 0 } else { v });
    }
    Bitmap::from_raw(WIDTH, HEIGHT, data).unwrap()
}

fn file(name: &str, extension: &str, contents: Vec<u8>) -> StencilFile {
    StencilFile { name: name.to_string(), extension: extension.to_string(), contents }
}

fn stencil_files() -> Vec<StencilFile> {
    (0..43)
        .map(|i| {
            let p = Pattern::from_ordinal(i).unwrap();
            file(p.name(), "png", encode_png(&stencil(i as u32)).unwrap())
        })
        .collect()
}

#[test]
fn png_file_holds_the_bitmap() {
    let bitmap = stencil(7);
    let file = encode_png(&bitmap).unwrap();
    assert_eq!(&file[..8], &PNG_SIGNATURE);
    assert_ne!(file, bitmap.to_raw());
    let read = image::load_from_memory(&file).unwrap().into_rgba8();
    assert_eq!(read.width(), WIDTH);
    assert_eq!(read.height(), HEIGHT);
    assert_eq!(read.into_raw(), bitmap.to_raw());
}

#[test]
fn png_file_reads_back_as_the_same_bitmap() {
    for seed in 0..5 {
        let bitmap = stencil(seed);
        assert_eq!(decode_image(&encode_png(&bitmap).unwrap(), "png").unwrap(), bitmap);
    }
    let mut small = Bitmap::new(2, 1);
    small.put_pixel(1, 0, (1, 2, 3, 4));
    assert_eq!(decode_image(&encode_png(&small).unwrap(), "png").unwrap(), small);
}

#[test]
fn encoding_twice_gives_the_same_file() {
    let bitmap = stencil(9);
    assert_eq!(encode_png(&bitmap).unwrap(), encode_png(&bitmap).unwrap());
}

#[test]
fn empty_bitmap_has_no_png_file() {
    assert!(encode_png(&Bitmap::new(0, 0)).is_err());
    assert!(encode_png(&Bitmap::new(0, 5)).is_err());
}

#[test]
fn bytes_that_are_no_png_file_are_refused() {
    assert!(decode_image(&[], "png").is_err());
    assert!(decode_image(b"not an image", "png").is_err());
    assert!(decode_image(&PNG_SIGNATURE, "png").is_err());
    let mut file = encode_png(&stencil(1)).unwrap();
    file.truncate(40);
    assert!(decode_image(&file, "png").is_err());
}

#[test]
fn the_extension_decides_the_format() {
    let bitmap = stencil(3);
    let file = encode_png(&bitmap).unwrap();
    assert_eq!(decode_image(&file, "png").unwrap(), bitmap);
    assert_eq!(decode_image(&file, "PNG").unwrap(), bitmap);
    assert!(decode_image(&file, "").is_err());
    assert!(decode_image(&file, "txt").is_err());
    assert!(decode_image(&file, "bmp").is_err());
    assert!(decode_image(&file, ".png").is_err());
}

#[test]
fn gray_png_file_is_read_as_rgba() {
    let mut file = Vec::new();
    image::write_buffer_with_format(
        &mut std::io::Cursor::new(&mut file),
        &[0u8, 100, 200, 255],
        2,
        2,
        image::ExtendedColorType::L8,
        image::ImageFormat::Png,
    )
    .unwrap();
    let bitmap = decode_image(&file, "png").unwrap();
    assert_eq!(bitmap.width(), 2);
    assert_eq!(bitmap.height(), 2);
    assert_eq!(bitmap.get_pixel(1, 0), (100, 100, 100, 255));
    assert_eq!(bitmap.get_pixel(1, 1), (255, 255, 255, 255));
}

#[test]
fn load_patterns_puts_each_file_in_its_place() {
    let mut files = stencil_files();
    files.reverse();
    let atlas = load_patterns(&files).unwrap();
    assert!(atlas.is_complete());
    for i in 0..43 {
        assert_eq!(*atlas.get(Pattern::from_ordinal(i).unwrap()), stencil(i as u32));
    }
}

#[test]
fn load_patterns_of_nothing_fails() {
    assert_eq!(load_patterns(&vec![]), Err(ServiceError::IncompleteAtlas));
}

#[test]
fn load_patterns_fails_if_a_stencil_is_missing() {
    for missing in [0usize, 1, 20, 42] {
        let mut files = stencil_files();
        files.remove(missing);
        assert_eq!(load_patterns(&files), Err(ServiceError::IncompleteAtlas));
    }
}

#[test]
fn load_patterns_fails_if_a_stencil_has_another_size() {
    for (width, height) in [(40, 20), (20, 41), (21, 40), (1, 1), (19, 40)] {
        let mut files = stencil_files();
        files[7].contents = encode_png(&Bitmap::new(width, height)).unwrap();
        assert_eq!(load_patterns(&files), Err(ServiceError::IncompleteAtlas));
    }
}

#[test]
fn later_file_of_the_same_name_replaces_the_earlier() {
    let mut files = stencil_files();
    files.push(file("bricks", "png", encode_png(&stencil(99)).unwrap()));
    let atlas = load_patterns(&files).unwrap();
    assert_eq!(*atlas.get(Pattern::Bricks), stencil(99));
    assert_eq!(*atlas.get(Pattern::Base), stencil(0));
    // a wrong size is forgiven if a later file puts it right
    let mut files = stencil_files();
    files.insert(0, file("bricks", "png", encode_png(&Bitmap::new(3, 3)).unwrap()));
    assert_eq!(*load_patterns(&files).unwrap().get(Pattern::Bricks), stencil(2));
}

#[test]
fn load_patterns_fails_on_the_first_bad_file() {
    let good = encode_png(&stencil(1)).unwrap();
    let files = vec![
        file("base", "png", good.clone()),
        file("no_such_pattern", "png", good.clone()),
        file("bricks", "png", vec![1, 2, 3]),
    ];
    assert_eq!(
        load_patterns(&files),
        Err(ServiceError::UnknownPattern("no_such_pattern".to_string()))
    );
    let files = vec![
        file("base", "png", good.clone()),
        file("no_such_pattern", "png", vec![1, 2, 3]),
    ];
    assert!(matches!(load_patterns(&files), Err(ServiceError::Image(_))));
    let mut files = stencil_files();
    files[5].extension = "txt".to_string();
    assert!(matches!(load_patterns(&files), Err(ServiceError::Image(_))));
    let mut files = stencil_files();
    files.push(file("readme", "png", good.clone()));
    assert_eq!(load_patterns(&files), Err(ServiceError::UnknownPattern("readme".to_string())));
}

#[test]
fn generate_gives_the_png_file_of_the_rendering() {
    let atlas = load_patterns(&stencil_files()).unwrap();
    let banner = Banner::parse_banner("e02f193").unwrap();
    let want = encode_png(&render(&banner, &atlas)).unwrap();
    assert_eq!(generate("e02f193", &atlas), Ok(want.clone()));
    assert_eq!(generate("e02f193.png", &atlas), Ok(want.clone()));
    assert_eq!(generate("e02f193.png.gz", &atlas), Ok(want.clone()));
    let file = generate("e02f193", &atlas).unwrap();
    assert_eq!(decode_image(&file, "png").unwrap(), render(&banner, &atlas));
}

#[test]
fn generate_refuses_bad_codes() {
    let atlas = load_patterns(&stencil_files()).unwrap();
    assert_eq!(generate("", &atlas), Err(ServiceError::Parse(ParseError::Empty)));
    assert_eq!(generate(".png", &atlas), Err(ServiceError::Parse(ParseError::Empty)));
    assert_eq!(generate("g.png", &atlas), Err(ServiceError::Parse(ParseError::MalformedDigit)));
    assert_eq!(
        generate("1ff0.png", &atlas),
        Err(ServiceError::Parse(ParseError::InvalidPattern("ff".to_string())))
    );
    assert_eq!(
        generate("é.png", &atlas),
        Err(ServiceError::Parse(ParseError::InvalidBannerString))
    );
}

#[test]
fn pattern_gives_the_png_file_of_the_stencil() {
    let atlas = load_patterns(&stencil_files()).unwrap();
    let want = encode_png(&stencil(2)).unwrap();
    assert_eq!(pattern("bricks", &atlas), Ok(want.clone()));
    assert_eq!(pattern("bricks.png", &atlas), Ok(want));
    assert_eq!(pattern("base.png", &atlas), Ok(encode_png(&stencil(0)).unwrap()));
}

#[test]
fn pattern_refuses_unknown_names() {
    let atlas = load_patterns(&stencil_files()).unwrap();
    assert_eq!(
        pattern("brick.png", &atlas),
        Err(ServiceError::UnknownPattern("brick".to_string()))
    );
    assert_eq!(pattern("", &atlas), Err(ServiceError::UnknownPattern(String::new())));
    assert_eq!(pattern("Bricks", &atlas), Err(ServiceError::UnknownPattern("Bricks".to_string())));
}

#[test]
fn pattern_of_an_empty_stencil_fails_to_encode() {
    let atlas = StencilAtlas::new();
    assert!(matches!(pattern("bricks", &atlas), Err(ServiceError::Image(_))));
}
