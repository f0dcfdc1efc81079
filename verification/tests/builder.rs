use linurgy::Editor;
use linurgy::EditorBuilder;
use linurgy::NewlineType;

#[test]
fn default_build_same_as_editor_default() {
    let mut builder = EditorBuilder::default();
    assert_eq!(Editor::default(), builder.build());
}

#[test]
fn new_just_creates_default() {
    let default = EditorBuilder::default();
    let new = EditorBuilder::new();
    assert_eq!(default, new);
}

#[test]
fn set_newline_trigger() {
    let mut builder = EditorBuilder::new();
    builder.newline_trigger(2);
    let expected = Editor::new(String::from(""), 2, NewlineType::Lf);
    assert_eq!(expected, builder.build());
}

#[test]
fn default_edit_type_replace() {
    let default = EditorBuilder::default();
    let mut explicit_replace = EditorBuilder::new();
    explicit_replace.replace();
    assert_eq!(default.edit_type, explicit_replace.edit_type);
}

#[test]
fn replace_with_dashes() {
    let mut builder = EditorBuilder::new();
    builder.text("--");
    let expected = Editor::new(String::from("--"), 0, NewlineType::Lf);
    assert_eq!(expected, builder.build());
}

#[test]
fn append_with_dashes() {
    let mut builder = EditorBuilder::new();
    builder.text("--");
    builder.append();
    let expected = Editor::new(String::from("\n--"), 0, NewlineType::Lf);
    assert_eq!(expected, builder.build());
}

#[test]
fn insert_with_dashes() {
    let mut builder = EditorBuilder::new();
    builder.text("--");
    builder.insert();
    let expected = Editor::new(String::from("--\n"), 0, NewlineType::Lf);
    assert_eq!(expected, builder.build());
}

#[test]
fn default_newline_type_lf() {
    let default = EditorBuilder::default();
    let mut explicit_lf = EditorBuilder::new();
    explicit_lf.newline_lf();
    assert_eq!(default.newline, explicit_lf.newline);
}

#[test]
fn crlf_newline_append_with_dashes() {
    let mut builder = EditorBuilder::new();
    builder.newline_crlf();
    builder.text("--");
    builder.append();
    let expected = Editor::new(String::from("\r\n--"), 0, NewlineType::Crlf);
    assert_eq!(expected, builder.build());
}

#[test]
fn prepare_then_build_prepared_repeatedly() {
    let mut builder = EditorBuilder::new();
    builder.text("==");
    builder.insert();
    builder.newline_trigger(3);
    builder.prepare();
    let expected = Editor::new(String::from("==\n"), 3, NewlineType::Lf);
    assert_eq!(expected, builder.build_prepared());
    assert_eq!(expected, builder.build_prepared());
}
