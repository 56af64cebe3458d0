use iced_todo::utils::{
    check_dirty, decimal_text, hex_to_rgb, is_hex_colour, strip_trailing_newline,
};

#[test]
fn strips_a_line_feed() {
    assert_eq!(strip_trailing_newline("Buy milk\n"), "Buy milk");
}

#[test]
fn strips_a_carriage_return_and_line_feed() {
    assert_eq!(strip_trailing_newline("Buy milk\r\n"), "Buy milk");
}

#[test]
fn leaves_text_without_terminator() {
    assert_eq!(strip_trailing_newline("Buy milk"), "Buy milk");
}

#[test]
fn strips_one_terminator_only() {
    assert_eq!(strip_trailing_newline("a\n\n"), "a\n");
    assert_eq!(strip_trailing_newline("a\r\n\r\n"), "a\r\n");
    assert_eq!(strip_trailing_newline("a\r\n\n"), "a\r\n");
    assert_eq!(strip_trailing_newline("a\n\r\n"), "a\n");
}

#[test]
fn strips_a_text_that_is_only_a_terminator() {
    assert_eq!(strip_trailing_newline("\n"), "");
    assert_eq!(strip_trailing_newline("\r\n"), "");
    assert_eq!(strip_trailing_newline(""), "");
}

#[test]
fn keeps_a_lone_carriage_return() {
    assert_eq!(strip_trailing_newline("a\r"), "a\r");
    assert_eq!(strip_trailing_newline("\r"), "\r");
}

#[test]
fn keeps_terminators_inside_the_text() {
    assert_eq!(strip_trailing_newline("a\nb"), "a\nb");
    assert_eq!(strip_trailing_newline("a\r\nb\n"), "a\r\nb");
}

#[test]
fn strips_after_characters_of_several_bytes() {
    assert_eq!(strip_trailing_newline("café\n"), "café");
    assert_eq!(strip_trailing_newline("日本語\r\n"), "日本語");
}

#[test]
fn dirty_when_flag_is_set() {
    let items: Vec<u8> = vec![0, 0];
    let mut asked = 0;
    let dirty = check_dirty(&true, &items, |_| {
        asked += 1;
        false
    });
    assert!(dirty);
    assert_eq!(asked, 0);
}

#[test]
fn dirty_when_an_item_is() {
    let items: Vec<u8> = vec![0, 1, 0];
    let mut asked = 0;
    let dirty = check_dirty(&false, &items, |item| {
        asked += 1;
        *item == 1
    });
    assert!(dirty);
    assert_eq!(asked, 2);
}

#[test]
fn clean_when_nothing_is_dirty() {
    let items: Vec<u8> = vec![0, 0, 0];
    assert!(!check_dirty(&false, &items, |item| *item == 1));
    let none: Vec<u8> = Vec::new();
    assert!(!check_dirty(&false, &none, |_| true));
    assert!(check_dirty(&true, &none, |_| false));
}

#[test]
fn writes_numbers_in_base_ten() {
    assert_eq!(decimal_text(0), "0");
    assert_eq!(decimal_text(7), "7");
    assert_eq!(decimal_text(9), "9");
    assert_eq!(decimal_text(10), "10");
    assert_eq!(decimal_text(42), "42");
    assert_eq!(decimal_text(1000), "1000");
    assert_eq!(decimal_text(1234567890), "1234567890");
    assert_eq!(decimal_text(18446744073709551615), "18446744073709551615");
    assert_eq!(decimal_text(u128::MAX), "340282366920938463463374607431768211455");
}

#[test]
fn reads_the_colours_of_the_theme() {
    assert_eq!(hex_to_rgb("a5adce"), (0xa5, 0xad, 0xce));
    assert_eq!(hex_to_rgb("c6d0f5"), (198, 208, 245));
    assert_eq!(hex_to_rgb("232634"), (35, 38, 52));
    assert_eq!(hex_to_rgb("000000"), (0, 0, 0));
}

#[test]
fn reads_digits_of_either_case() {
    assert_eq!(hex_to_rgb("FFFFFF"), (255, 255, 255));
    assert_eq!(hex_to_rgb("aBcDeF"), (0xab, 0xcd, 0xef));
}

#[test]
fn reads_a_signed_pair() {
    assert_eq!(hex_to_rgb("+f0000"), (15, 0, 0));
    assert_eq!(hex_to_rgb("00+a+0"), (0, 10, 0));
}

#[test]
fn reads_the_first_three_pairs() {
    assert_eq!(hex_to_rgb("0102037f"), (1, 2, 3));
}

#[test]
fn tells_readable_colours() {
    assert!(is_hex_colour("a5adce"));
    assert!(is_hex_colour("+f0000"));
    assert!(is_hex_colour("0102037f"));
    assert!(!is_hex_colour("a5adc"));
    assert!(!is_hex_colour("a5ad"));
    assert!(!is_hex_colour(""));
    assert!(!is_hex_colour("a5adcg"));
    assert!(!is_hex_colour("a5adce0"));
    assert!(!is_hex_colour("a5adcezz"));
    assert!(!is_hex_colour("-10000"));
    assert!(!is_hex_colour("++0000"));
    assert!(!is_hex_colour("0+0000"));
    assert!(!is_hex_colour("éa5adc"));
}

#[test]
fn strips_as_the_suffix_rule_says() {
    let texts = [
        "", "a", "\n", "\r", "\r\n", "\n\r", "a\n", "a\r\n", "a\r", "a\n\n", "a\r\n\r\n",
        "a\n\r\n", "a\r\n\n", "\r\r\n", "\n\n", "ab\ncd", "ab\r\ncd\r\n", "é\r\n", "日本\n",
        " \n", "\t\r\n", "a\r\r", "\r\n\r",
    ];
    for text in texts {
        let expected = text
            .strip_suffix("\r\n")
            .or(text.strip_suffix("\n"))
            .unwrap_or(text)
            .to_string();
        assert_eq!(strip_trailing_newline(text), expected);
    }
}

#[test]
fn writes_numbers_as_the_standard_library_does() {
    let mut n: u128 = 0;
    while n < 2000 {
        assert_eq!(decimal_text(n), n.to_string());
        n += 1;
    }
    let mut n: u128 = 1;
    while n < u128::MAX / 3 {
        assert_eq!(decimal_text(n), n.to_string());
        assert_eq!(decimal_text(n - 1), (n - 1).to_string());
        assert_eq!(decimal_text(n + 1), (n + 1).to_string());
        n *= 3;
    }
}

#[test]
fn reads_pairs_as_the_standard_library_does() {
    for high in 0u8..128 {
        for low in 0u8..128 {
            let pair: String = [high as char, low as char].iter().collect();
            let text = format!("{}0000", pair);
            let parsed = u8::from_str_radix(&pair, 16);
            assert_eq!(is_hex_colour(&text), parsed.is_ok());
            if let Ok(value) = parsed {
                assert_eq!(hex_to_rgb(&text), (value, 0, 0));
                let text = format!("00{}00", pair);
                assert_eq!(hex_to_rgb(&text), (0, value, 0));
                let text = format!("0000{}", pair);
                assert_eq!(hex_to_rgb(&text), (0, 0, value));
            }
        }
    }
}

#[test]
fn a_pair_anywhere_has_to_read() {
    assert!(is_hex_colour("000000ff"));
    assert!(!is_hex_colour("000000fg"));
    assert!(!is_hex_colour("000000f"));
    assert!(!is_hex_colour("000000 f"));
}
