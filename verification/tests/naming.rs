use album_fetch::naming::{digit_width, get_album_id, get_media_type, make_filename, temp_name, zero_pad};

#[test]
fn width_of_small_counts() {
    assert_eq!(digit_width(1), 1);
    assert_eq!(digit_width(9), 1);
    assert_eq!(digit_width(10), 2);
    assert_eq!(digit_width(99), 2);
    assert_eq!(digit_width(100), 3);
    assert_eq!(digit_width(1000), 4);
}

#[test]
fn width_equals_digit_count_of_total() {
    // The padding width for N items is the decimal digit count of N.
    let mut n: usize = 1;
    while n <= 100000 {
        let digits = n.to_string().len();
        assert_eq!(digit_width(n), digits);
        n *= 10;
    }
}

#[test]
fn zero_padding_to_three_digits() {
    assert_eq!(zero_pad(1, 3), "001");
    assert_eq!(zero_pad(42, 3), "042");
    assert_eq!(zero_pad(100, 3), "100");
    assert_eq!(zero_pad(1234, 3), "1234");
}

#[test]
fn hundred_items_pad_to_three_digits() {
    // With 100 items the prefixes run 001 through 100.
    let first = make_filename(0, 100, "aaa", None, None, "image/png");
    assert!(first.starts_with("001 - "));
    let last = make_filename(99, 100, "zzz", None, None, "image/png");
    assert!(last.starts_with("100 - "));
    for index in 0..100 {
        let name = make_filename(index, 100, "id", None, None, "image/png");
        let expect = format!("{:0>3} - id.png", index + 1);
        assert_eq!(name, expect);
    }
}

#[test]
fn filenames_are_pairwise_distinct() {
    // Even items with identical texts get distinct names from the prefix.
    let mut names = Vec::new();
    for index in 0..12 {
        names.push(make_filename(index, 12, "same", None, None, "image/jpeg"));
    }
    for a in 0..names.len() {
        for b in 0..names.len() {
            if a != b {
                assert_ne!(names[a], names[b]);
            }
        }
    }
}

#[test]
fn filename_carries_title_and_description() {
    let title = String::from("A Title");
    let desc = String::from("about it");
    let name = make_filename(2, 10, "abc123", Some(&title), Some(&desc), "image/jpeg");
    assert_eq!(name, "03 - abc123 - A Title - about it.jpg");
}

#[test]
fn filename_has_no_path_separator() {
    let title = String::from("a/b : c");
    let name = make_filename(0, 5, "x/y", Some(&title), None, "video/mp4");
    assert!(!name.contains('/'));
    assert_eq!(name, "1 - x-y - a-b : c.mp4");
}

#[test]
fn zero_pads_zero_too() {
    assert_eq!(zero_pad(0, 3), "000");
    assert_eq!(zero_pad(0, 1), "0");
}

#[test]
fn temp_name_carries_the_reserved_prefix() {
    assert_eq!(temp_name("001 - id.png"), "~!001 - id.png");
    assert_eq!(temp_name(""), "~!");
}

#[test]
fn media_type_jpeg_becomes_jpg() {
    assert_eq!(get_media_type("image/jpeg"), "jpg");
}

#[test]
fn media_type_passes_other_subtypes_through() {
    assert_eq!(get_media_type("image/png"), "png");
    assert_eq!(get_media_type("video/mp4"), "mp4");
    assert_eq!(get_media_type("image/"), "");
}

#[test]
fn media_type_without_separator_is_unknown() {
    assert_eq!(get_media_type("weird"), "unknown");
    assert_eq!(get_media_type(""), "unknown");
}

#[test]
fn media_type_splits_at_first_separator() {
    assert_eq!(get_media_type("a/b/c"), "b/c");
}

#[test]
fn album_id_strips_page_prefix() {
    assert_eq!(get_album_id("https://imgur.com/a/abc123"), "abc123");
}

#[test]
fn album_id_passes_bare_id_through() {
    assert_eq!(get_album_id("abc123"), "abc123");
    assert_eq!(get_album_id(""), "");
    assert_eq!(get_album_id("https://imgur.com/b/abc123"), "https://imgur.com/b/abc123");
}
