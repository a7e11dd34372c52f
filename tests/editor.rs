use creole_live_editor::editor::{CreoleLiveEditor, Msg, Props, KEY};
use creole_live_editor::storage::StoreOp;

fn props(name: &str, value: &str, editable: bool) -> Props {
    Props { name: name.to_string(), value: value.to_string(), editable, autofocus: true }
}

#[test]
fn save_key_appends_name() {
    assert_eq!(CreoleLiveEditor::get_save_key("editor1"), "yew.wasm-creole-live-editor.value.editor1");
    assert_eq!(CreoleLiveEditor::get_save_key(""), format!("{KEY}."));
}

#[test]
fn default_props_are_editable_and_unnamed() {
    let p = Props::default();
    assert_eq!(p, props("", "", true));
}

#[test]
fn restores_only_empty_named_editable() {
    assert_eq!(
        CreoleLiveEditor::restore_key(&props("e", "", true)),
        Some("yew.wasm-creole-live-editor.value.e".to_string())
    );
    assert_eq!(CreoleLiveEditor::restore_key(&props("e", "given", true)), None);
    assert_eq!(CreoleLiveEditor::restore_key(&props("", "", true)), None);
    assert_eq!(CreoleLiveEditor::restore_key(&props("e", "", false)), None);
}

#[test]
fn create_uses_restored_text() {
    let e = CreoleLiveEditor::create(props("e", "", true), Some("saved".to_string()));
    assert_eq!(e.props.value, "saved");
    assert_eq!(e.key, "yew.wasm-creole-live-editor.value.e");
    let e = CreoleLiveEditor::create(props("e", "given", true), Some("saved".to_string()));
    assert_eq!(e.props.value, "given");
    let e = CreoleLiveEditor::create(props("", "", true), None);
    assert_eq!(e.key, "");
    assert_eq!(e.props.value, "");
}

#[test]
fn edits_are_saved_when_named() {
    let mut e = CreoleLiveEditor::create(props("e", "a", true), None);
    let (redraw, op) = e.update(Msg::Edit("b".to_string()));
    assert!(redraw);
    assert_eq!(
        op,
        Some(StoreOp::Put { key: "yew.wasm-creole-live-editor.value.e".to_string(), value: "b".to_string() })
    );
    assert_eq!(e.props.value, "b");
    let mut anon = CreoleLiveEditor::create(props("", "a", true), None);
    assert_eq!(anon.update(Msg::Edit("b".to_string())), (true, None));
    assert_eq!(anon.update(Msg::Nope), (true, None));
}

#[test]
fn preview_only_editor_ignores_edits() {
    let mut e = CreoleLiveEditor::create(props("e", "a", false), None);
    assert_eq!(e.update(Msg::Edit("b".to_string())), (false, None));
    assert_eq!(e.props.value, "a");
}

#[test]
fn change_reports_redraw_and_rekeys() {
    let mut e = CreoleLiveEditor::create(props("e", "a", true), None);
    assert!(!e.change(props("e", "a", true)));
    assert!(e.change(props("e", "b", true)));
    assert!(e.change(props("e", "b", false)));
    assert!(e.change(props("f", "b", false)));
    assert_eq!(e.key, "yew.wasm-creole-live-editor.value.f");
    assert!(e.change(props("", "b", false)));
    assert_eq!(e.key, "");
}
