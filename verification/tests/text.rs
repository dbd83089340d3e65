use codex_terminal::text::{
    chars_of, copied, copied_list, decimal, ends_with, join, lines, owned, same_text,
    signed_decimal, starts_with, text_between, trim, trim_line_end, truncate_and_trailoff,
    truncate_lines_and_trailoff,
};
use codex_terminal::text_map::TextMap;

fn strings(list: &[&str]) -> Vec<String> {
    list.iter().map(|text| text.to_string()).collect()
}

#[test]
fn texts_are_compared_by_their_characters() {
    assert!(same_text("", ""));
    assert!(same_text("päivä", "päivä"));
    assert!(!same_text("päivä", "paiva"));
    assert!(!same_text("a", "ab"));
    assert!(!same_text("ab", "aB"));
}

#[test]
fn trimming_agrees_with_the_standard_library() {
    for text in [
        "",
        " ",
        "a",
        "  a b\t\n",
        "\u{a0}x\u{3000}",
        "\u{200b}zero width is kept\u{200b}",
        "\u{85}\u{2028}\u{2029}\u{1680}x",
        "\r\n\r\n",
    ] {
        assert_eq!(trim(text), text.trim());
        assert_eq!(trim(&trim(text)), trim(text));
    }
}

#[test]
fn white_space_is_that_of_the_standard_library() {
    for code in 0..0x3100u32 {
        if let Some(c) = char::from_u32(code) {
            let text = format!("{c}x{c}");
            assert_eq!(trim(&text), text.trim(), "{code:x}");
        }
    }
}

#[test]
fn line_ends_are_trimmed() {
    assert_eq!(trim_line_end("a\r\n"), "a");
    assert_eq!(trim_line_end("a \n\r\n"), "a ");
    assert_eq!(trim_line_end("\na"), "\na");
    assert_eq!(trim_line_end("\n"), "");
}

#[test]
fn lines_agree_with_the_standard_library() {
    for text in [
        "",
        "\n",
        "a",
        "a\n",
        "a\r\nb",
        "a\rb\n",
        "a\n\nb\r",
        "\r\n\r\n",
        "a\r\r\nb\r\r",
        "one\ntwo\nthree",
    ] {
        assert_eq!(lines(text), text.lines().map(str::to_string).collect::<Vec<_>>());
        for line in lines(text) {
            assert!(!line.contains('\n'));
        }
    }
}

#[test]
fn texts_are_joined() {
    assert_eq!(join(&strings(&[]), "\n"), "");
    assert_eq!(join(&strings(&["a"]), "\n"), "a");
    assert_eq!(join(&strings(&["a", "", "b"]), "--"), "a----b");
}

#[test]
fn prefixes_and_suffixes_are_found() {
    assert!(starts_with("rollout-x", "rollout-"));
    assert!(starts_with("x", ""));
    assert!(!starts_with("roll", "rollout-"));
    assert!(!starts_with("xrollout-", "rollout-"));
    assert!(ends_with("a-b.jsonl", "-b.jsonl"));
    assert!(ends_with("x", ""));
    assert!(!ends_with("b.jsonl", "-b.jsonl"));
    assert!(!ends_with("-b.jsonl ", "-b.jsonl"));
}

#[test]
fn numbers_are_written_in_decimal() {
    for n in [0, 9, 10, 99, 100, 258_400, u64::MAX] {
        assert_eq!(decimal(n), n.to_string());
    }
    for n in [0, 1, -1, 127, -10, i32::MAX, i32::MIN] {
        assert_eq!(signed_decimal(n), n.to_string());
    }
}

#[test]
fn long_texts_are_shortened() {
    assert_eq!(truncate_and_trailoff("èèèèèè", 7), "èèèèèè");
    assert_eq!(truncate_and_trailoff("èèèèèè", 6), "èèèèèè");
    assert_eq!(truncate_and_trailoff("èèèèèè", 5), "èèèèè…");
    assert_eq!(truncate_and_trailoff("", 5), "");
    let text = "x".repeat(200);
    let shortened = truncate_and_trailoff(&text, 160);
    assert_eq!(shortened.chars().count(), 161);
    assert!(shortened.ends_with('…'));
}

#[test]
fn many_lines_are_shortened() {
    let text = "Line 1\nLine 2\nLine 3\nLine 4\nLine 5";
    assert_eq!(truncate_lines_and_trailoff(text, 3), "Line 1\nLine 2\n…");
    assert_eq!(truncate_lines_and_trailoff(text, 5), "Line 1\nLine 2\nLine 3\nLine 4\n…");
    assert_eq!(truncate_lines_and_trailoff(text, 6), text);
    assert_eq!(truncate_lines_and_trailoff("a\r\nb", 9), "a\nb");
    assert_eq!(truncate_lines_and_trailoff("a\nb", 1), "\n…");
    assert!(truncate_lines_and_trailoff(text, 2).matches('\n').count() < 2);
}

#[test]
fn texts_are_copied() {
    assert_eq!(copied(&Some("a".to_string())), Some("a".to_string()));
    assert_eq!(copied(&None), None);
    assert_eq!(owned(Some("a")), Some("a".to_string()));
    assert_eq!(owned(None), None);
    assert_eq!(copied_list(&strings(&["a", "b"])), strings(&["a", "b"]));
    let chars = chars_of("añb");
    assert_eq!(chars, vec!['a', 'ñ', 'b']);
    assert_eq!(text_between(&chars, 1, 3), "ñb");
    assert_eq!(text_between(&chars, 2, 2), "");
}

#[test]
fn maps_keep_one_value_for_each_key() {
    let mut map: TextMap<u32> = TextMap::new();
    assert_eq!(map.len(), 0);
    map.insert("b".to_string(), 1);
    map.insert("a".to_string(), 2);
    map.insert("b".to_string(), 3);
    assert_eq!(map.len(), 2);
    assert_eq!(map.key_at(0), "b");
    assert_eq!(*map.value_at(0), 3);
    assert_eq!(map.get("b"), Some(&3));
    assert_eq!(map.get("c"), None);
    assert!(map.contains_key("a"));
    *map.get_mut("a").unwrap() = 7;
    assert_eq!(map.get("a"), Some(&7));
    assert!(map.get_mut("c").is_none());
    assert_eq!(map.remove("c"), None);
    assert_eq!(map.remove("b"), Some(3));
    assert!(!map.contains_key("b"));
    map.insert("z".to_string(), 9);
    assert_eq!(map.into_entries(), vec![("a".to_string(), 7), ("z".to_string(), 9)]);
}
