use ffi_helpers::utf16::to_utf16;

#[test]
fn the_basic_plane_takes_one_unit_each() {
    assert_eq!(to_utf16(""), Vec::<u16>::new());
    assert_eq!(to_utf16("hi"), vec![0x68, 0x69]);
    assert_eq!(to_utf16("\u{e9}\u{2713}\u{ffff}"), vec![0xE9, 0x2713, 0xFFFF]);
    assert_eq!(to_utf16("\u{d7ff}\u{e000}"), vec![0xD7FF, 0xE000]);
}

#[test]
fn scalars_above_the_basic_plane_take_a_surrogate_pair() {
    assert_eq!(to_utf16("\u{10000}"), vec![0xD800, 0xDC00]);
    assert_eq!(to_utf16("\u{1d11e}"), vec![0xD834, 0xDD1E]);
    assert_eq!(to_utf16("\u{10ffff}"), vec![0xDBFF, 0xDFFF]);
}

#[test]
fn transcoding_agrees_with_the_standard_library() {
    for text in ["", "An Error Occurred", "gr\u{fc}\u{df}e", "\u{65e5}\u{672c}\u{8a9e}", "a\u{1f600}b\u{10000}c"] {
        let expected: Vec<u16> = text.encode_utf16().collect();
        assert_eq!(to_utf16(text), expected);
        assert_eq!(String::from_utf16(&to_utf16(text)).unwrap(), text);
    }
}
