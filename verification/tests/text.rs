use agent_tree::text::characters;
use agent_tree::text::concat_texts;
use agent_tree::text::cut_lines;
use agent_tree::text::is_blank;
use agent_tree::text::join_texts;
use agent_tree::text::text_of;
use agent_tree::text::trim;

fn texts(items: &[&str]) -> Vec<String> {
    items.iter().map(|t| t.to_string()).collect()
}

#[test]
fn blank_texts_hold_only_whitespace() {
    assert!(is_blank(""));
    assert!(is_blank(" \t\n\r\u{a0}"));
    assert!(!is_blank(" a "));
    assert!(!is_blank("\u{8d8a}"));
}

#[test]
fn trim_takes_whitespace_from_both_ends() {
    assert_eq!(trim("  a b \n"), "a b");
    assert_eq!(trim("a"), "a");
    assert_eq!(trim(""), "");
    assert_eq!(trim(" \t "), "");
    assert_eq!(trim("\u{a0}x\u{3000}"), "x");
    assert_eq!(trim(" /repo/root\n"), " /repo/root\n".trim());
}

#[test]
fn characters_and_back() {
    let chars = characters("a\u{e9}\u{1f600}");
    assert_eq!(chars, vec!['a', '\u{e9}', '\u{1f600}']);
    assert_eq!(text_of(&chars, 0, 3), "a\u{e9}\u{1f600}");
    assert_eq!(text_of(&chars, 1, 2), "\u{e9}");
    assert_eq!(text_of(&chars, 2, 2), "");
}

#[test]
fn lines_are_cut_at_line_feeds() {
    let cut = cut_lines("a\nbc\n\nd");
    assert_eq!(cut.complete, texts(&["a", "bc", ""]));
    assert_eq!(cut.rest, "d");
    let cut = cut_lines("a\n");
    assert_eq!(cut.complete, texts(&["a"]));
    assert_eq!(cut.rest, "");
    let cut = cut_lines("");
    assert_eq!(cut.complete, texts(&[]));
    assert_eq!(cut.rest, "");
    let cut = cut_lines("a\r\nb");
    assert_eq!(cut.complete, texts(&["a\r"]));
    assert_eq!(cut.rest, "b");
}

#[test]
fn texts_are_joined_and_concatenated() {
    assert_eq!(join_texts(&texts(&["a", "b", "c"]), " "), "a b c");
    assert_eq!(join_texts(&texts(&["a"]), " "), "a");
    assert_eq!(join_texts(&texts(&[]), " "), "");
    assert_eq!(join_texts(&texts(&["", ""]), ", "), ", ");
    assert_eq!(concat_texts(&texts(&["a", "", "bc"])), "abc");
    assert_eq!(concat_texts(&texts(&[])), "");
}

#[test]
fn whitespace_is_the_unicode_property() {
    let white = [
        '\u{9}', '\u{a}', '\u{b}', '\u{c}', '\u{d}', ' ', '\u{85}', '\u{a0}', '\u{1680}',
        '\u{2000}', '\u{2005}', '\u{200a}', '\u{2028}', '\u{2029}', '\u{202f}', '\u{205f}',
        '\u{3000}',
    ];
    for c in white {
        assert!(is_blank(&c.to_string()), "{:?}", c);
        assert_eq!(trim(&format!("{}x{}", c, c)), "x");
    }
    let black = [
        '\u{8}', '\u{e}', '\u{1f}', '!', '\u{84}', '\u{86}', '\u{9f}', '\u{a1}', '\u{167f}',
        '\u{1681}', '\u{180e}', '\u{1fff}', '\u{200b}', '\u{2027}', '\u{202a}', '\u{202e}',
        '\u{2030}', '\u{205e}', '\u{2060}', '\u{2fff}', '\u{3001}', '\u{feff}',
    ];
    for c in black {
        assert!(!is_blank(&c.to_string()), "{:?}", c);
        assert_eq!(trim(&c.to_string()), c.to_string());
    }
}

#[test]
fn every_character_is_whitespace_exactly_where_listed() {
    let listed = |c: char| {
        let code = c as u32;
        (0x9..=0xd).contains(&code)
            || code == 0x20
            || code == 0x85
            || code == 0xa0
            || code == 0x1680
            || (0x2000..=0x200a).contains(&code)
            || code == 0x2028
            || code == 0x2029
            || code == 0x202f
            || code == 0x205f
            || code == 0x3000
    };
    let mut text = String::new();
    for c in '\0'..=char::MAX {
        text.clear();
        text.push(c);
        assert_eq!(is_blank(&text), listed(c), "{:?}", c);
    }
}
