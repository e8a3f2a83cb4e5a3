use print_queue::parser::{find_size_keyword, parse_size_keyword};

#[test]
fn test_basic_keywords() {
    assert_eq!(parse_size_keyword("order_839_4x6_002.png"), Some("4x6".to_string()));
    assert_eq!(parse_size_keyword("photo-A4-001.jpg"), Some("a4".to_string()));
    assert_eq!(parse_size_keyword("batch.5x7.001.png"), Some("5x7".to_string()));
    assert_eq!(parse_size_keyword("my_letter_print.tiff"), Some("8.5x11".to_string()));
}

#[test]
fn test_aliases() {
    assert_eq!(parse_size_keyword("photo_4R_001.jpg"), Some("4x6".to_string()));
    assert_eq!(parse_size_keyword("batch-KG-print.png"), Some("4x6".to_string()));
    assert_eq!(parse_size_keyword("image_5R.jpg"), Some("5x7".to_string()));
}

#[test]
fn test_case_insensitive() {
    assert_eq!(parse_size_keyword("PHOTO_4X6.jpg"), Some("4x6".to_string()));
    assert_eq!(parse_size_keyword("print_a4.png"), Some("a4".to_string()));
}

#[test]
fn test_no_match() {
    assert_eq!(parse_size_keyword("random_photo.jpg"), None);
    assert_eq!(parse_size_keyword("document.pdf"), None);
}

#[test]
fn test_first_match_wins() {
    assert_eq!(parse_size_keyword("photo_4x6_A4.jpg"), Some("4x6".to_string()));
}

#[test]
fn test_8_5x11() {
    assert_eq!(parse_size_keyword("sticker_8.5x11_001.png"), Some("8.5x11".to_string()));
}

#[test]
fn leftmost_keyword_wins_over_longer_later_one() {
    assert_eq!(parse_size_keyword("A4_then_4x6.png"), Some("a4".to_string()));
    assert_eq!(parse_size_keyword("kg letter.jpg"), Some("4x6".to_string()));
}

#[test]
fn keyword_must_be_delimited() {
    assert_eq!(parse_size_keyword("photo4x6.jpg"), None);
    assert_eq!(parse_size_keyword("4x6photo.jpg"), None);
    assert_eq!(parse_size_keyword("4x6"), Some("4x6".to_string()));
    assert_eq!(parse_size_keyword("my photo 5x7.jpg"), Some("5x7".to_string()));
}

#[test]
fn extension_is_not_searched() {
    assert_eq!(parse_size_keyword("photo.4x6"), None);
    assert_eq!(parse_size_keyword("photo.a4"), None);
    // More than five bytes after the last dot is not an extension.
    assert_eq!(parse_size_keyword("photo.letter"), Some("8.5x11".to_string()));
    assert_eq!(parse_size_keyword("scan_a6.jpeg"), Some("a6".to_string()));
}

#[test]
fn empty_and_dot_only_names() {
    assert_eq!(parse_size_keyword(""), None);
    assert_eq!(parse_size_keyword("."), None);
    assert_eq!(parse_size_keyword("a5."), Some("a5".to_string()));
}

#[test]
fn find_size_keyword_on_lowered_names() {
    assert_eq!(find_size_keyword("8x10_print"), Some("8x10".to_string()));
    assert_eq!(find_size_keyword("5r"), Some("5x7".to_string()));
    assert_eq!(find_size_keyword("A4"), None);
    assert_eq!(find_size_keyword("a4-a5"), Some("a4".to_string()));
}

#[test]
fn non_ascii_names() {
    assert_eq!(parse_size_keyword("Ünïcode_8X10.png"), Some("8x10".to_string()));
    assert_eq!(parse_size_keyword("фото_a6.jpg"), Some("a6".to_string()));
}
