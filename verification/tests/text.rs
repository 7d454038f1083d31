use tenki_core::text::{chars_of, collect_text, join, same_text, trim};

fn nodes(texts: &[&str]) -> Vec<String> {
    texts.iter().map(|text| String::from(*text)).collect()
}

#[test]
fn trim_removes_white_space_at_both_ends() {
    assert_eq!(trim("  12 "), "12");
    assert_eq!(trim("\n\t晴れ\r\n"), "晴れ");
    assert_eq!(trim("a b"), "a b");
    assert_eq!(trim("  a  b  "), "a  b");
    assert_eq!(trim(""), "");
    assert_eq!(trim("   "), "");
    assert_eq!(trim("---"), "---");
}

#[test]
fn trim_knows_white_space_beyond_ascii() {
    assert_eq!(trim("\u{3000}北西\u{3000}"), "北西");
    assert_eq!(trim("\u{a0}5\u{2003}"), "5");
    assert_eq!(trim("\u{200b}5"), "\u{200b}5");
}

#[test]
fn trim_agrees_with_std() {
    let texts = ["", " ", "x", " x", "x ", " x y ", "\u{85}x\u{1680}", "\u{feff}x", "\t\u{b}\u{c}x"];
    for text in texts {
        assert_eq!(trim(text), text.trim());
    }
}

#[test]
fn join_concatenates_in_order() {
    assert_eq!(join(&nodes(&[])), "");
    assert_eq!(join(&nodes(&["a"])), "a");
    assert_eq!(join(&nodes(&["a", "", "b ", "c"])), "ab c");
}

#[test]
fn text_of_a_cell_is_joined_then_trimmed() {
    assert_eq!(collect_text(&nodes(&["\n  ", "12", " ", "\n"])), "12");
    assert_eq!(collect_text(&nodes(&[" 1", "2 ", " 3 "])), "12  3");
    assert_eq!(collect_text(&nodes(&[])), "");
    assert_eq!(collect_text(&nodes(&[" ", "\n"])), "");
}

#[test]
fn chars_are_scalar_values() {
    assert_eq!(chars_of("1月5日"), vec!['1', '月', '5', '日']);
    assert_eq!(chars_of(""), Vec::<char>::new());
}

#[test]
fn same_text_compares_contents() {
    assert!(same_text("---", "---"));
    assert!(!same_text("---", "--"));
    assert!(!same_text("晴れ", "曇り"));
    assert!(same_text("", ""));
}
