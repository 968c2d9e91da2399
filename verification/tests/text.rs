use ehm_save::chars::{
    bytes_to_string, bytes_to_string_debug, bytes_to_string_or_debug, string_to_bytes,
};

const MAPPED: [u8; 57] = [
    142, 143, 144, 153, 154, 157, 158, 159, 160, 167, 179, 187, 188, 189, 190, 193, 196, 197,
    201, 205, 206, 211, 214, 216, 218, 220, 222, 223, 224, 225, 226, 227, 228, 229, 230, 231,
    232, 233, 234, 235, 236, 237, 238, 239, 240, 241, 242, 243, 244, 245, 246, 248, 249, 250,
    251, 252, 253,
];

#[test]
fn plain_text_decodes_to_itself() {
    let name = bytes_to_string(b"Finland").unwrap();
    assert_eq!(name, "Finland");
}

#[test]
fn text_ends_at_the_first_nul() {
    let mut field = [0u8; 51];
    field[..7].copy_from_slice(b"Finland");
    field[9] = b'x';
    assert_eq!(bytes_to_string(&field).unwrap(), "Finland");
    assert_eq!(bytes_to_string(&[0u8; 4]).unwrap(), "");
    assert_eq!(bytes_to_string(&[]).unwrap(), "");
    assert_eq!(bytes_to_string(b"ab").unwrap(), "ab");
}

#[test]
fn the_letters_of_the_code_page_decode() {
    let club = [b'K', 228, b'r', b'p', 228, b't', 0];
    assert_eq!(bytes_to_string(&club).unwrap(), "K\u{e4}rp\u{e4}t");
    assert_eq!(bytes_to_string(&[142]).unwrap(), "\u{17d}");
    assert_eq!(bytes_to_string(&[144]).unwrap(), "\u{11b}");
    assert_eq!(bytes_to_string(&[153]).unwrap(), "\u{2122}");
    assert_eq!(bytes_to_string(&[160, 179, 190]).unwrap(), "\u{10d}\u{158}\u{10e}");
    assert_eq!(bytes_to_string(&[253, 193, 223]).unwrap(), "\u{fd}\u{c1}\u{df}");
}

#[test]
fn every_byte_of_the_code_page_is_one_character() {
    for b in MAPPED {
        let text = bytes_to_string(&[b]).unwrap();
        assert_eq!(text.chars().count(), 1, "byte {b}");
        assert!(!text.is_ascii(), "byte {b}");
    }
}

#[test]
fn a_byte_that_stands_for_nothing_fails_and_hands_back_the_field() {
    for b in [128u8, 141, 145, 192, 247, 254, 255] {
        let field = [b'a', b, b'c', 0, 7];
        let e = bytes_to_string(&field).unwrap_err();
        assert_eq!(e.raw, field.to_vec());
    }
}

#[test]
fn bytes_that_stand_for_nothing_are_kept_as_they_are() {
    assert_eq!(bytes_to_string(&[195, 164]).unwrap(), "\u{e4}");
    assert_eq!(string_to_bytes("\u{e4}"), Some(vec![228]));
    assert!(bytes_to_string(&[195]).is_err());
    assert!(bytes_to_string(&[195, 228]).is_err());
}

#[test]
fn the_debug_rendering_never_fails() {
    assert_eq!(bytes_to_string_debug(&[b'a', 128, b'c', 0, b'd']), "a\u{80}c");
    assert_eq!(bytes_to_string_debug(&[142]), "\u{8e}");
    assert_eq!(bytes_to_string_debug(b"Finland\0\0"), "Finland");
    assert_eq!(bytes_to_string_debug(&[]), "");
}

#[test]
fn text_that_does_not_decode_is_shown_in_the_debug_rendering() {
    assert_eq!(bytes_to_string_or_debug(&[b'a', 142, 0]), "a\u{17d}");
    assert_eq!(bytes_to_string_or_debug(&[b'a', 128, b'c', 0]), "a\u{80}c");
}

#[test]
fn text_encodes_to_the_bytes_it_was_decoded_from() {
    let mut all: Vec<u8> = (1u8..128).collect();
    all.extend_from_slice(&MAPPED);
    let text = bytes_to_string(&all).unwrap();
    assert_eq!(string_to_bytes(&text), Some(all.clone()));
    for b in all {
        let one = bytes_to_string(&[b]).unwrap();
        assert_eq!(string_to_bytes(&one), Some(vec![b]));
    }
}

#[test]
fn encoding_stops_short_of_the_nul_padding() {
    let field = [b'O', b'u', b'l', b'u', 0, 0, 0];
    let text = bytes_to_string(&field).unwrap();
    assert_eq!(string_to_bytes(&text), Some(b"Oulu".to_vec()));
    assert_eq!(string_to_bytes(""), Some(vec![]));
}

#[test]
fn text_outside_the_code_page_does_not_encode() {
    assert_eq!(string_to_bytes("\u{3a9}"), None);
    assert_eq!(string_to_bytes("a\u{c0}"), None);
    assert_eq!(string_to_bytes("a\u{f7}b"), None);
    assert_eq!(string_to_bytes("\u{2121}"), None);
    assert_eq!(string_to_bytes("\u{1f600}"), None);
}
