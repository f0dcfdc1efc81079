use linurgy::Editor;
use linurgy::NewlineType;
use linurgy::factory::appender;
use linurgy::factory::appender_crlf;
use linurgy::factory::inserter;
use linurgy::factory::inserter_crlf;
use linurgy::factory::replacer;
use linurgy::factory::replacer_crlf;

fn blank_editor() -> Editor {
    Editor::new(String::from(""), 0, NewlineType::Lf)
}

fn blank_editor_crlf() -> Editor {
    Editor::new(String::from(""), 0, NewlineType::Crlf)
}

#[test]
fn appender_blank() {
    let editor = appender("", 0);
    let expected = blank_editor();
    assert_eq!(expected, editor);
}

#[test]
fn inserter_blank() {
    let editor = inserter("", 0);
    let expected = blank_editor();
    assert_eq!(expected, editor);
}

#[test]
fn replacer_blank() {
    let editor = replacer("", 0);
    let expected = blank_editor();
    assert_eq!(expected, editor);
}

#[test]
fn appender_crlf_blank() {
    let editor = appender_crlf("", 0);
    let expected = blank_editor_crlf();
    assert_eq!(expected, editor);
}

#[test]
fn inserter_crlf_blank() {
    let editor = inserter_crlf("", 0);
    let expected = blank_editor_crlf();
    assert_eq!(expected, editor);
}

#[test]
fn replacer_crlf_blank() {
    let editor = replacer_crlf("", 0);
    let expected = blank_editor_crlf();
    assert_eq!(expected, editor);
}

#[test]
fn appender_dash_one_line() {
    let editor = appender("-", 1);
    let expected = Editor::new(String::from("\n-"), 1, NewlineType::Lf);
    assert_eq!(expected, editor);
}

#[test]
fn inserter_dash_one_line() {
    let editor = inserter("-", 1);
    let expected = Editor::new(String::from("-\n"), 1, NewlineType::Lf);
    assert_eq!(expected, editor);
}

#[test]
fn replacer_dash_one_line() {
    let editor = replacer("-", 1);
    let expected = Editor::new(String::from("-"), 1, NewlineType::Lf);
    assert_eq!(expected, editor);
}

#[test]
fn appender_crlf_dash_one_line() {
    let editor = appender_crlf("-", 1);
    let expected = Editor::new(String::from("\r\n-"), 1, NewlineType::Crlf);
    assert_eq!(expected, editor);
}

#[test]
fn inserter_crlf_dash_one_line() {
    let editor = inserter_crlf("-", 1);
    let expected = Editor::new(String::from("-\r\n"), 1, NewlineType::Crlf);
    assert_eq!(expected, editor);
}

#[test]
fn replacer_crlf_dash_one_line() {
    let editor = replacer_crlf("-", 1);
    let expected = Editor::new(String::from("-"), 1, NewlineType::Crlf);
    assert_eq!(expected, editor);
}

#[test]
fn appender_dash_two_lines() {
    let editor = appender("-", 2);
    let expected = Editor::new(String::from("\n\n-"), 2, NewlineType::Lf);
    assert_eq!(expected, editor);
}

#[test]
fn inserter_dash_two_lines() {
    let editor = inserter("-", 2);
    let expected = Editor::new(String::from("-\n\n"), 2, NewlineType::Lf);
    assert_eq!(expected, editor);
}

#[test]
fn replacer_dash_two_lines() {
    let editor = replacer("-", 2);
    let expected = Editor::new(String::from("-"), 2, NewlineType::Lf);
    assert_eq!(expected, editor);
}

#[test]
fn appender_crlf_dash_two_lines() {
    let editor = appender_crlf("-", 2);
    let expected = Editor::new(String::from("\r\n\r\n-"), 2, NewlineType::Crlf);
    assert_eq!(expected, editor);
}

#[test]
fn inserter_crlf_dash_two_lines() {
    let editor = inserter_crlf("-", 2);
    let expected = Editor::new(String::from("-\r\n\r\n"), 2, NewlineType::Crlf);
    assert_eq!(expected, editor);
}

#[test]
fn replacer_crlf_dash_two_lines() {
    let editor = replacer_crlf("-", 2);
    let expected = Editor::new(String::from("-"), 2, NewlineType::Crlf);
    assert_eq!(expected, editor);
}
