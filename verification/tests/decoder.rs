use webscraper::decoder::decode;

const REPLACEMENT: char = '\u{FFFD}';

#[test]
fn empty_input_is_empty_text() {
    assert_eq!(decode(&[]), "");
}

#[test]
fn ascii_is_kept() {
    assert_eq!(decode(b"hello, world"), "hello, world");
}

#[test]
fn well_formed_scalars_of_every_width_are_kept() {
    let text = "a\u{e9}\u{20ac}\u{1F600}z";
    assert_eq!(text.len(), 1 + 2 + 3 + 4 + 1);
    assert_eq!(decode(text.as_bytes()), text);
}

#[test]
fn boundaries_of_each_width_are_kept() {
    for text in ["\u{0}", "\u{7f}", "\u{80}", "\u{7ff}", "\u{800}", "\u{d7ff}", "\u{e000}", "\u{ffff}", "\u{10000}", "\u{10ffff}"] {
        assert_eq!(decode(text.as_bytes()), text);
    }
}

#[test]
fn well_formed_input_decodes_as_std_reads_it() {
    let samples: [&[u8]; 4] = [
        b"<title>plain</title>",
        "gr\u{fc}\u{df}e".as_bytes(),
        "\u{65e5}\u{672c}\u{8a9e}".as_bytes(),
        "\u{1F980} crab".as_bytes(),
    ];
    for bytes in samples {
        assert_eq!(decode(bytes), String::from_utf8(bytes.to_vec()).unwrap());
    }
}

#[test]
fn a_stray_byte_is_replaced() {
    assert_eq!(decode(&[0x41, 0xFF, 0x42]), "A\u{FFFD}B");
}

#[test]
fn a_lone_continuation_byte_is_replaced() {
    assert_eq!(decode(&[0x80]), "\u{FFFD}");
    assert_eq!(decode(&[0x61, 0xBF, 0x62]), "a\u{FFFD}b");
}

#[test]
fn each_byte_of_a_truncated_scalar_is_replaced() {
    assert_eq!(decode(&[0xE2, 0x82]), "\u{FFFD}\u{FFFD}");
    assert_eq!(decode(&[0xC3]), "\u{FFFD}");
    assert_eq!(decode(&[0xF0, 0x9F, 0x98]), "\u{FFFD}\u{FFFD}\u{FFFD}");
}

#[test]
fn a_truncated_scalar_does_not_swallow_what_follows() {
    assert_eq!(decode(&[0xC3, 0x41]), "\u{FFFD}A");
    assert_eq!(decode(&[0xE2, 0x82, 0x41]), "\u{FFFD}\u{FFFD}A");
}

#[test]
fn an_overlong_encoding_is_replaced() {
    assert_eq!(decode(&[0xC0, 0x80]), "\u{FFFD}\u{FFFD}");
    assert_eq!(decode(&[0xC1, 0xBF]), "\u{FFFD}\u{FFFD}");
    assert_eq!(decode(&[0xE0, 0x80, 0x80]), "\u{FFFD}\u{FFFD}\u{FFFD}");
    assert_eq!(decode(&[0xF0, 0x80, 0x80, 0x80]), "\u{FFFD}\u{FFFD}\u{FFFD}\u{FFFD}");
}

#[test]
fn an_encoded_surrogate_is_replaced() {
    assert_eq!(decode(&[0xED, 0xA0, 0x80]), "\u{FFFD}\u{FFFD}\u{FFFD}");
    assert_eq!(decode(&[0xED, 0xBF, 0xBF]), "\u{FFFD}\u{FFFD}\u{FFFD}");
}

#[test]
fn a_scalar_beyond_the_last_is_replaced() {
    assert_eq!(decode(&[0xF4, 0x90, 0x80, 0x80]), "\u{FFFD}\u{FFFD}\u{FFFD}\u{FFFD}");
    assert_eq!(decode(&[0xF7, 0xBF, 0xBF, 0xBF]), "\u{FFFD}\u{FFFD}\u{FFFD}\u{FFFD}");
}

#[test]
fn bytes_that_lead_nothing_are_replaced() {
    for byte in [0xF8u8, 0xFB, 0xFC, 0xFE, 0xFF] {
        assert_eq!(decode(&[byte]), "\u{FFFD}");
    }
}

#[test]
fn well_formed_text_after_a_bad_byte_is_kept() {
    assert_eq!(decode(&[0xFF, 0xC3, 0xA9]), "\u{FFFD}\u{e9}");
    assert_eq!(decode(&[0xC3, 0xA9, 0xFF, 0xE2, 0x82, 0xAC]), "\u{e9}\u{FFFD}\u{20ac}");
}

#[test]
fn every_single_byte_decodes_to_one_character() {
    for byte in 0u8..=255 {
        let text = decode(&[byte]);
        let expected = if byte < 0x80 { byte as char } else { REPLACEMENT };
        assert_eq!(text.chars().collect::<Vec<char>>(), vec![expected]);
    }
}

#[test]
fn every_pair_of_bytes_decodes() {
    for first in 0u8..=255 {
        for second in 0u8..=255 {
            let bytes = [first, second];
            let text = decode(&bytes);
            match std::str::from_utf8(&bytes) {
                Ok(read) => assert_eq!(text, read),
                Err(_) => assert!(text.contains(REPLACEMENT)),
            }
            let count = text.chars().count();
            assert!(count <= 2 && 2 <= 4 * count);
        }
    }
}

#[test]
fn encoded_text_decodes_to_itself() {
    let text = "Caf\u{e9} \u{2014} \u{4f60}\u{597d} \u{1F30D}";
    assert_eq!(decode(text.to_string().into_bytes().as_slice()), text);
}

#[test]
fn a_replacement_character_in_the_input_is_kept() {
    assert_eq!(decode(&[0xEF, 0xBF, 0xBD]), "\u{FFFD}");
}

#[test]
fn latin1_text_is_readable_where_it_is_ascii() {
    // "café" in ISO-8859-1
    assert_eq!(decode(&[0x63, 0x61, 0x66, 0xE9]), "caf\u{FFFD}");
}

/// What decoding must give for `bytes`, read off std: the text itself where
/// std takes the bytes for UTF-8, and otherwise something with a replacement in
/// it that is no longer than the input.
fn agrees_with_std(bytes: &[u8]) {
    let text = decode(bytes);
    match std::str::from_utf8(bytes) {
        Ok(read) => assert_eq!(text, read, "{:x?}", bytes),
        Err(_) => {
            assert!(text.contains(REPLACEMENT), "{:x?}", bytes);
            let count = text.chars().count();
            assert!(count <= bytes.len() && bytes.len() <= 4 * count, "{:x?}", bytes);
        }
    }
}

#[test]
fn every_three_byte_form_is_judged_as_std_judges_it() {
    for first in 0xE0u8..=0xEF {
        for second in 0u8..=255 {
            for third in [0x00u8, 0x41, 0x7F, 0x80, 0x9F, 0xA0, 0xBF, 0xC0, 0xFF] {
                agrees_with_std(&[first, second, third]);
            }
        }
    }
}

#[test]
fn every_four_byte_form_is_judged_as_std_judges_it() {
    for first in 0xF0u8..=0xFF {
        for second in 0u8..=255 {
            for third in [0x7Fu8, 0x80, 0xBF, 0xC0] {
                for fourth in [0x7Fu8, 0x80, 0xBF, 0xC0] {
                    agrees_with_std(&[first, second, third, fourth]);
                }
            }
        }
    }
}

#[test]
fn a_long_mixed_input_is_judged_byte_by_byte() {
    let mut bytes = Vec::new();
    let mut expected = String::new();
    for round in 0u32..500 {
        bytes.extend_from_slice("ok \u{e9}\u{20ac}\u{1F600}".as_bytes());
        expected.push_str("ok \u{e9}\u{20ac}\u{1F600}");
        bytes.push(0x80 | (round % 0x40) as u8);
        expected.push(REPLACEMENT);
    }
    assert_eq!(decode(&bytes), expected);
}
