use vuhlp::input::{approval_text, classify_line, extract_prompt, is_reset_command, LineKind};
use vuhlp::protocol::{VuhlpContentPart, VuhlpMessage};
use vuhlp::text::{joined, same_text};

fn text(text: &str) -> VuhlpContentPart {
    VuhlpContentPart::Text { text: text.to_string() }
}

fn message(role: &str, content: Vec<VuhlpContentPart>) -> VuhlpMessage {
    VuhlpMessage { role: role.to_string(), content }
}

#[test]
fn reset_commands_are_exact() {
    assert!(is_reset_command("/new"));
    assert!(is_reset_command("/clear"));
    assert!(!is_reset_command("/NEW"));
    assert!(!is_reset_command("/new "));
    assert!(!is_reset_command("new"));
    assert!(!is_reset_command(""));
}

#[test]
fn blank_lines_are_skipped() {
    for line in ["", " ", "\t\r\n", "\u{a0}\u{2003}\u{3000}", "\u{85}\u{2028}\u{1680}"] {
        assert_eq!(classify_line(line), LineKind::Blank);
        assert_eq!(approval_text(line), None);
    }
}

#[test]
fn zero_width_space_is_not_blank() {
    assert_eq!(
        classify_line(" \u{200b} "),
        LineKind::Message { text: "\u{200b}".to_string() }
    );
}

#[test]
fn white_space_around_a_line_is_ignored() {
    assert_eq!(classify_line("  /new\r\n"), LineKind::Reset);
    assert_eq!(classify_line("\u{2009}/clear\u{205f}"), LineKind::Reset);
    assert_eq!(
        classify_line("\t{ \"a\": 1 } \n"),
        LineKind::Message { text: "{ \"a\": 1 }".to_string() }
    );
}

#[test]
fn inner_white_space_is_kept() {
    assert_eq!(classify_line(" / new "), LineKind::Message { text: "/ new".to_string() });
}

#[test]
fn reset_commands_are_no_commands_while_approval_is_open() {
    assert_eq!(approval_text(" /new "), Some("/new".to_string()));
}

#[test]
fn prompt_joins_text_parts() {
    let m = message("user", vec![text("a"), VuhlpContentPart::Other, text(""), text("b c")]);
    assert_eq!(extract_prompt(&m), Some("ab c".to_string()));
}

#[test]
fn prompt_ignores_the_role() {
    assert_eq!(extract_prompt(&message("system", vec![text("x")])), Some("x".to_string()));
}

#[test]
fn prompt_is_not_trimmed() {
    assert_eq!(extract_prompt(&message("user", vec![text(" ")])), Some(" ".to_string()));
}

#[test]
fn messages_without_text_have_no_prompt() {
    assert_eq!(extract_prompt(&message("user", vec![])), None);
    assert_eq!(extract_prompt(&message("user", vec![VuhlpContentPart::Other])), None);
    assert_eq!(extract_prompt(&message("user", vec![text(""), text("")])), None);
}

#[test]
fn parts_concatenate() {
    let whole = extract_prompt(&message("user", vec![text("ab"), text("cd"), text("ef")]));
    let first = extract_prompt(&message("user", vec![text("ab")])).unwrap();
    let second = extract_prompt(&message("user", vec![text("cd"), text("ef")])).unwrap();
    assert_eq!(whole, Some(joined(&first, &second)));
}

#[test]
fn texts_compare_by_characters() {
    assert!(same_text("", ""));
    assert!(same_text("\u{e9}", "\u{e9}"));
    assert!(!same_text("\u{e9}", "e\u{301}"));
    assert_eq!(joined("", ""), "");
    assert_eq!(joined("x", ""), "x");
}
