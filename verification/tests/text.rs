use lsp_commands::text::{find, signed_to_text, unsigned_to_text, utf16_to_byte_idx};

#[test]
fn numbers_in_decimal() {
    assert_eq!(unsigned_to_text(0), "0");
    assert_eq!(unsigned_to_text(7), "7");
    assert_eq!(unsigned_to_text(10), "10");
    assert_eq!(unsigned_to_text(4_294_967_295), "4294967295");
    assert_eq!(unsigned_to_text(u64::MAX), "18446744073709551615");
    assert_eq!(signed_to_text(-32), "-32");
    assert_eq!(signed_to_text(i32::MIN), "-2147483648");
    assert_eq!(signed_to_text(i32::MAX), "2147483647");
}

#[test]
fn first_place_of_a_text() {
    assert_eq!(find("fn f(a: A, b: A)", "A"), Some((8, 9)));
    assert_eq!(find("fn f(a: A, b: A)", "b: A"), Some((11, 15)));
    assert_eq!(find("äöü(ö)", "ö"), Some((2, 4)));
    assert_eq!(find("abc", ""), Some((0, 0)));
    assert_eq!(find("", ""), Some((0, 0)));
    assert_eq!(find("abc", "abcd"), None);
    assert_eq!(find("abc", "x"), None);
    for (text, needle) in [("aab", "ab"), ("xyxyz", "xyz"), ("a日本a", "本"), ("q", "日")] {
        let expected = text.find(needle).map(|start| (start, start + needle.len()));
        assert_eq!(find(text, needle), expected);
    }
}

#[test]
fn byte_offsets_of_utf16_units() {
    let text = "a\u{1F600}\u{e4}\u{65e5}b";
    let offsets: Vec<usize> = (0..9).map(|index| utf16_to_byte_idx(text, index)).collect();
    assert_eq!(offsets, vec![0, 1, 1, 5, 7, 10, 11, 11, 11]);
    assert_eq!(utf16_to_byte_idx(text, usize::MAX), 11);
    assert_eq!(utf16_to_byte_idx("", 0), 0);
    assert_eq!(utf16_to_byte_idx("", 3), 0);
    let edges = "\u{7f}\u{80}\u{7ff}\u{800}\u{ffff}\u{10000}\u{10ffff}";
    let mut units = 0;
    for (at, c) in edges.char_indices() {
        assert_eq!(utf16_to_byte_idx(edges, units), at);
        units += c.len_utf16();
    }
    assert_eq!(utf16_to_byte_idx(edges, units), edges.len());
}
