use telega_checker::bot_handler::parse_telegram_id;
use telega_checker::bot_handler::upload::derive_asset_name;
use telega_checker::text::{
    begins_with, ends_with, i64_text, joined, last_segment, parse_i64, parse_unsigned, trimmed,
    u64_text, white_space, without_prefix,
};

#[test]
fn white_space_is_that_of_unicode() {
    for code in 0..=0x10FFFFu32 {
        if let Some(c) = char::from_u32(code) {
            assert_eq!(white_space(c), c.is_whitespace(), "U+{:04X}", code);
        }
    }
}

#[test]
fn trimming_agrees_with_std() {
    for text in [
        "", " ", "12", " 12", "12 ", "\t\n 12\u{a0}\u{3000}", " a b ", "\u{200b}x\u{200b}", "ы ",
    ] {
        assert_eq!(trimmed(text), text.trim());
    }
}

#[test]
fn integers_are_read_as_std_reads_them() {
    for text in [
        "", "+", "-", "0", "-0", "+7", "007", "12", " 12", "12 ", "1_0", "1e3", "٣", "--1", "+-1",
        "9223372036854775807", "9223372036854775808", "-9223372036854775808",
        "-9223372036854775809", "99999999999999999999999999", "0000000000000000000000000000001",
    ] {
        assert_eq!(parse_i64(text), text.parse::<i64>().ok(), "{}", text);
        assert_eq!(
            parse_unsigned(text, 65535).map(|n| n as u16),
            text.parse::<u16>().ok(),
            "{}",
            text
        );
    }
    for text in ["65535", "65536", "4294967295", "4294967296", "-1", "-0", "+5"] {
        assert_eq!(parse_unsigned(text, u32::MAX), text.parse::<u32>().ok(), "{}", text);
        assert_eq!(
            parse_unsigned(text, 65535).map(|n| n as u16),
            text.parse::<u16>().ok(),
            "{}",
            text
        );
    }
}

#[test]
fn integers_are_written_as_std_writes_them() {
    for n in [0, 1, -1, 9, 10, -10, 123456789, i64::MAX, i64::MIN] {
        assert_eq!(i64_text(n), n.to_string());
        assert_eq!(parse_i64(&i64_text(n)), Some(n));
    }
    for n in [0, 9, 10, u64::MAX] {
        assert_eq!(u64_text(n), n.to_string());
    }
}

#[test]
fn telegram_ids_are_positive() {
    assert_eq!(parse_telegram_id("123456789"), Some(123456789));
    assert_eq!(parse_telegram_id("+5"), Some(5));
    assert_eq!(parse_telegram_id("0"), None);
    assert_eq!(parse_telegram_id("-5"), None);
    assert_eq!(parse_telegram_id("abc"), None);
    assert_eq!(parse_telegram_id(" 5"), None);
}

#[test]
fn prefixes_suffixes_and_segments() {
    assert!(begins_with("ключ", "кл"));
    assert!(begins_with("a", ""));
    assert!(!begins_with("a", "ab"));
    assert!(ends_with("x.plugin", ".plugin"));
    assert!(!ends_with("plugin", ".plugin"));
    assert_eq!(without_prefix("Bearer t", "Bearer ").as_deref(), Some("t"));
    assert_eq!(without_prefix("bearer t", "Bearer "), None);
    assert_eq!(last_segment("a_b_c", '_'), "c");
    assert_eq!(last_segment("abc", '_'), "abc");
    assert_eq!(last_segment("abc_", '_'), "");
    assert_eq!(joined(&vec![], "\n"), "");
    assert_eq!(joined(&vec!["a".to_string(), "b".to_string()], "\n"), "a\nb");
}

#[test]
fn asset_names_are_derived_from_file_names() {
    assert_eq!(derive_asset_name("telega_checker_rust_AyuGram.plugin"), "ayugram");
    assert_eq!(derive_asset_name("telega_checker_rust_exteraGram.plugin"), "exteragram");
    assert_eq!(derive_asset_name("My-Client 2.plugin"), "myclient2");
    assert_eq!(derive_asset_name("noextension_Foo"), "foo");
    assert_eq!(derive_asset_name("a_ПЛАГИН!.plugin"), "плагин");
    assert_eq!(derive_asset_name("a_ΟΔΟΣ.plugin"), "οδος");
    assert_eq!(derive_asset_name("a_.plugin"), "");
    assert_eq!(derive_asset_name(".plugin"), "");
}

#[test]
fn only_the_last_segment_counts_for_an_asset_name() {
    for rest in ["AyuGram.plugin", "plugin", "a.plugin", ".plugin", "", "x-Y 2"] {
        for before in ["", "telega_checker", "a.plugin", "_"] {
            assert_eq!(
                derive_asset_name(&format!("{}_{}", before, rest)),
                derive_asset_name(rest)
            );
        }
        let name = derive_asset_name(rest);
        assert_eq!(derive_asset_name(&name), name);
    }
}

#[test]
fn an_asset_name_is_kept() {
    for file in [
        "a_AyuGram.plugin", "ПЛАГИН!.plugin", "a_ΟΔΟΣ-Α.plugin", "x_İstanbul.plugin", "ǅ.plugin",
        "\u{212A}elvin", "", "____", "Straße_ẞ9",
    ] {
        let name = derive_asset_name(file);
        assert_eq!(derive_asset_name(&name), name, "{}", file);
        assert!(name.chars().all(|c| c.is_alphanumeric()));
    }
}
