use creole_live_editor::autosave::{Autosave, SaveState};
use creole_live_editor::page::{is_help_key, Theme, HELP};
use creole_live_editor::route::{Mode, Page};
use creole_live_editor::storage::{FlatStore, StoreOp};

fn page(mode: Mode, id: &str) -> Page {
    Page { mode, doc_id: id.to_string() }
}

#[test]
fn missing_document_starts_empty() {
    let store = FlatStore::new();
    let p = page(Mode::Edit, "unknown");
    let key = p.load_key().unwrap();
    assert_eq!(key, "unknown");
    assert_eq!(p.initial_content(store.get(&key)), "");
    assert_eq!(page(Mode::View, "unknown").initial_content(None), "");
}

#[test]
fn stored_document_is_loaded() {
    let mut store = FlatStore::new();
    store.save("notes", "== notes");
    let p = page(Mode::View, "notes");
    assert_eq!(p.initial_content(store.get(&p.load_key().unwrap())), "== notes");
}

#[test]
fn help_page_shows_help_and_never_saves() {
    let p = page(Mode::Help, "help");
    assert_eq!(p.load_key(), None);
    assert_eq!(p.initial_content(Some("stale".to_string())), HELP);
    assert!(p.is_editable());
    assert!(p.autosave().is_none());
}

#[test]
fn not_found_page_is_empty() {
    let p = page(Mode::NotFound, "");
    assert_eq!(p.load_key(), None);
    assert_eq!(p.initial_content(Some("x".to_string())), "");
    assert!(!p.is_editable());
}

#[test]
fn edit_page_autosaves_its_document() {
    let p = page(Mode::Edit, "doc");
    assert!(p.is_editable());
    let a: Autosave = p.autosave().unwrap();
    assert_eq!(a.key, "doc");
    assert_eq!(a.state, SaveState::Idle);
    assert!(page(Mode::View, "doc").autosave().is_none());
    assert!(!page(Mode::View, "doc").is_editable());
}

#[test]
fn delete_confirmation_removes_document() {
    let mut store = FlatStore::new();
    store.save("gone", "text");
    let p = page(Mode::ConfirmDelete, "gone");
    let op = p.delete_op().unwrap();
    assert_eq!(op, StoreOp::Delete { key: "gone".to_string() });
    store.apply(op);
    assert_eq!(store.load("gone"), "");
    assert_eq!(page(Mode::View, "gone").delete_op(), None);
}

#[test]
fn default_theme_is_light() {
    assert_eq!(Theme::default(), Theme::Light);
}

#[test]
fn help_key_is_read_only_in_every_mode() {
    for mode in [Mode::View, Mode::Edit, Mode::ConfirmDelete] {
        let p = page(mode, "help");
        assert!(p.shows_help());
        assert_eq!(p.load_key(), None);
        assert_eq!(p.initial_content(Some("user text".to_string())), HELP);
        assert!(p.autosave().is_none());
        assert_eq!(p.delete_op(), None);
    }
    assert!(page(Mode::Edit, "help").is_editable());
    assert!(!page(Mode::Edit, "helpful").shows_help());
    assert!(page(Mode::Edit, "helpful").autosave().is_some());
}

#[test]
fn help_key_detection() {
    assert!(is_help_key(&"help".to_string()));
    assert!(!is_help_key(&"Help".to_string()));
    assert!(!is_help_key(&"".to_string()));
}
