use anvil::cursor::{
    frame, icon_from, load_icon, nearest_images, shape_name, x11_cursor, Cursor, Error, IconFile,
    Image, SHAPES,
};

fn word(value: u32) -> [u8; 4] {
    value.to_le_bytes()
}

/// A cursor file with the given images: size, side, delay and the byte that fills them.
fn cursor_file(images: &[(u32, u32, u32, u8)]) -> Vec<u8> {
    let mut file: Vec<u8> = Vec::new();
    file.extend(b"Xcur");
    file.extend(word(16));
    file.extend(word(0x1_0000));
    file.extend(word(images.len() as u32));
    let mut position = 16 + 12 * images.len() as u32;
    for (size, side, _, _) in images {
        file.extend(word(0xfffd_0002));
        file.extend(word(*size));
        file.extend(word(position));
        position += 36 + 4 * side * side;
    }
    for (size, side, delay, fill) in images {
        file.extend(word(36));
        file.extend(word(0xfffd_0002));
        file.extend(word(*size));
        file.extend(word(1));
        file.extend(word(*side));
        file.extend(word(*side));
        file.extend(word(1));
        file.extend(word(0));
        file.extend(word(*delay));
        file.extend(vec![*fill; (4 * side * side) as usize]);
    }
    file
}

fn image(size: u32, side: u32, delay: u32, fill: u8) -> Image {
    Image {
        size,
        width: side,
        height: side,
        xhot: 1,
        yhot: 0,
        delay,
        pixels_rgba: vec![fill; 4],
        pixels_argb: Vec::new(),
    }
}

fn fill(image: &Image) -> u8 {
    image.pixels_rgba[0]
}

#[test]
fn loading_a_shape() {
    let file = IconFile::Read(cursor_file(&[(4, 2, 30, 7)]));
    let images = load_icon(&file).unwrap_or_else(|_| panic!("not loaded"));
    assert_eq!(images.len(), 1);
    let found = &images[0];
    assert_eq!((found.size, found.width, found.height), (4, 2, 2));
    assert_eq!((found.xhot, found.yhot, found.delay), (1, 0, 30));
    assert_eq!(found.pixels_rgba, vec![7; 16]);
    assert_eq!(found.pixels_argb, vec![7; 16]);
}

#[test]
fn pixels_are_also_given_alpha_first() {
    let mut content = cursor_file(&[(1, 1, 0, 0)]);
    let length = content.len();
    content[length - 4..].copy_from_slice(&[0x12, 0x34, 0x56, 0x78]);
    let images = load_icon(&IconFile::Read(content)).unwrap_or_else(|_| panic!("not loaded"));
    assert_eq!(images[0].pixels_rgba, vec![0x12, 0x34, 0x56, 0x78]);
    assert_eq!(images[0].pixels_argb, vec![0x78, 0x12, 0x34, 0x56]);
}

#[test]
fn shapes_that_cannot_be_loaded() {
    assert!(matches!(load_icon(&IconFile::Missing), Err(Error::NoDefaultCursor)));
    assert!(matches!(load_icon(&IconFile::Unreadable), Err(Error::File)));
    let junk = IconFile::Read(b"junk".to_vec());
    assert!(matches!(load_icon(&junk), Err(Error::Parse)));
    let hotspot_outside = IconFile::Read({
        let mut content = cursor_file(&[(1, 1, 0, 0)]);
        content[28 + 24] = 9;
        content
    });
    assert!(matches!(load_icon(&hotspot_outside), Err(Error::Parse)));
    assert!(matches!(icon_from(None), Err(Error::Parse)));
    assert!(matches!(icon_from(Some(Vec::new())), Ok(images) if images.is_empty()));
}

#[test]
fn shapes() {
    let names: Vec<&str> = (0..SHAPES).map(shape_name).collect();
    assert_eq!(
        names,
        vec![
            "default", "w-resize", "e-resize", "n-resize", "s-resize", "nw-resize", "ne-resize",
            "sw-resize", "se-resize",
        ]
    );
}

fn files(first: IconFile, second: IconFile) -> Vec<IconFile> {
    let mut files = vec![first, second];
    while files.len() < SHAPES {
        files.push(IconFile::Missing);
    }
    files
}

#[test]
fn loading_a_theme() {
    let default = IconFile::Read(cursor_file(&[(24, 2, 0, 1)]));
    let left = IconFile::Read(cursor_file(&[(24, 2, 0, 2)]));
    let cursor = Cursor::load(Some("48"), &files(default, left), Vec::new());
    assert_eq!(cursor.size, 48);
    assert_eq!(fill(&cursor.get_image(1, 0)), 1);
    assert_eq!(fill(&cursor.get_image_for("w-resize", 1, 0)), 2);
    // Not in the theme, and not known at all.
    assert_eq!(fill(&cursor.get_image_for("e-resize", 1, 0)), 1);
    assert_eq!(fill(&cursor.get_image_for("text", 1, 0)), 1);
}

#[test]
fn sizes_of_themes() {
    let size = |text: Option<&str>| {
        Cursor::load(text, &files(IconFile::Missing, IconFile::Missing), vec![0; 4]).size
    };
    assert_eq!(size(None), 24);
    assert_eq!(size(Some("32")), 32);
    assert_eq!(size(Some("+32")), 32);
    assert_eq!(size(Some("big")), 24);
    assert_eq!(size(Some("-3")), 24);
    assert_eq!(size(Some("99999999999")), 24);
}

#[test]
fn a_missing_default_is_replaced() {
    let left = IconFile::Read(cursor_file(&[(24, 2, 0, 2)]));
    let cursor = Cursor::load(None, &files(IconFile::Unreadable, left), vec![9; 16]);
    let fallback = cursor.get_image(2, 12345);
    assert_eq!((fallback.size, fallback.width, fallback.height), (32, 64, 64));
    assert_eq!((fallback.xhot, fallback.yhot, fallback.delay), (1, 1, 1));
    assert_eq!(fallback.pixels_rgba, vec![9; 16]);
    assert!(fallback.pixels_argb.is_empty());
    assert_eq!(fill(&cursor.get_image_for("w-resize", 1, 0)), 2);
}

#[test]
fn the_nearest_size_wins() {
    let images = vec![image(16, 16, 0, 1), image(24, 24, 0, 2), image(32, 32, 0, 3)];
    assert_eq!(nearest_images(24, &images), vec![1]);
    assert_eq!(nearest_images(100, &images), vec![2]);
    assert_eq!(nearest_images(1, &images), vec![0]);
    // Of two that are as near, the first one.
    assert_eq!(nearest_images(20, &images), vec![0]);
    assert_eq!(nearest_images(28, &images), vec![1]);
    // All images of the same width and height belong together.
    let same = vec![image(24, 24, 0, 1), image(24, 32, 0, 2), image(30, 24, 0, 3)];
    assert_eq!(nearest_images(24, &same), vec![0, 2]);
}

#[test]
fn animations() {
    let images = vec![image(24, 24, 10, 1), image(24, 24, 0, 2), image(24, 24, 5, 3)];
    let shown = |millis: u32| fill(&frame(millis, 24, &images));
    assert_eq!(shown(0), 1);
    assert_eq!(shown(9), 1);
    assert_eq!(shown(10), 3);
    assert_eq!(shown(14), 3);
    assert_eq!(shown(15), 1);
    for millis in 0..30 {
        assert_eq!(shown(millis), shown(millis + 15));
    }
    let still = vec![image(24, 24, 0, 4), image(24, 24, 0, 5)];
    assert_eq!(fill(&frame(77, 24, &still)), 4);
}

#[test]
fn long_times_wrap_around() {
    let default = IconFile::Read(cursor_file(&[(24, 2, 10, 1), (24, 2, 20, 2)]));
    let cursor = Cursor::load(None, &files(default, IconFile::Missing), Vec::new());
    assert_eq!(fill(&cursor.get_image(1, 5)), 1);
    assert_eq!(fill(&cursor.get_image(1, 15)), 2);
    assert_eq!(fill(&cursor.get_image(1, (1u128 << 32) + 5)), 1);
    assert_eq!(fill(&cursor.get_image(1, (1u128 << 32) + 15)), 2);
}

#[test]
fn cursors_for_x11() {
    let small = x11_cursor(image(24, 64, 0, 8));
    assert_eq!((small.width, small.height, small.xhot, small.yhot), (64, 64, 1, 0));
    assert_eq!(small.pixels_rgba, vec![8; 4]);
    assert_eq!(x11_cursor(image(24, 0x1_0003, 0, 8)).width, 3);
}
