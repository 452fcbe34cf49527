use termusic::config::keys::conflict::{KeyConflictError, KeyPath};
use termusic::config::keys::KeyBinding;
use termusic::ui::event::{Key, KeyEvent, KeyModifiers, MODIFIER_CONTROL};

#[test]
fn key_path_is_a_stack() {
    let mut path = KeyPath::new();
    assert_eq!(path.pop(), None);
    path.push("keys");
    path.push("player");
    assert_eq!(path.join_with_field("toggle_pause"), "keys.player.toggle_pause");
    assert_eq!(path.pop(), Some("player"));
    assert_eq!(path.join_with_field("quit"), "keys.quit");
    assert_eq!(path.pop(), Some("keys"));
    assert_eq!(path.pop(), None);
    assert_eq!(path, KeyPath::new());
}

#[test]
fn key_path_joins_with_dots() {
    assert_eq!(KeyPath::new().join_with_field("quit"), ".quit");
    assert_eq!(
        KeyPath::new_with_toplevel("keys").join_with_field("quit"),
        "keys.quit"
    );
    let mut path = KeyPath::new_with_toplevel("keys");
    path.push("");
    path.push("library");
    assert_eq!(path.join_with_field(""), "keys..library.");
    let mut other = KeyPath::new();
    other.push("keys");
    assert_eq!(other, KeyPath::new_with_toplevel("keys"));
}

#[test]
fn key_conflict_in_words() {
    let e = KeyConflictError {
        key_path_first: "keys.quit".to_string(),
        key_path_second: "keys.player.toggle_pause".to_string(),
        key: KeyBinding {
            key_event: KeyEvent::new(Key::Char('q'), KeyModifiers { bits: MODIFIER_CONTROL }),
        },
    };
    assert_eq!(
        e.to_string("CONTROL+q"),
        "Key Conflict: 'keys.quit' and 'keys.player.toggle_pause', key: 'CONTROL+q'"
    );
    assert_eq!(e.clone(), e);
}
