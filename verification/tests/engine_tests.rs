use openbn::PhoneticEngine;

#[test]
fn new_engine_is_empty_in_bangla_mode() {
    let e = PhoneticEngine::new();
    assert!(e.is_empty());
    assert_eq!(e.get_buffer(), "");
    assert!(e.bangla_mode);
    assert!(e.is_bangla_mode());
}

#[test]
fn default_engine_is_in_english_mode() {
    let e = PhoneticEngine::default();
    assert!(e.is_empty());
    assert!(!e.bangla_mode);
}

#[test]
fn push_and_translate() {
    let mut e = PhoneticEngine::new();
    e.push_char('k');
    e.push_char('a');
    assert_eq!(e.get_buffer(), "ka");
    assert!(!e.is_empty());
    assert_eq!(e.translate(), "কা");
}

#[test]
fn pop_removes_last_key() {
    let mut e = PhoneticEngine::new();
    e.push_char('k');
    e.push_char('h');
    assert!(e.pop_char());
    assert_eq!(e.get_buffer(), "k");
    assert!(e.pop_char());
    assert_eq!(e.get_buffer(), "");
    assert!(!e.pop_char());
    assert_eq!(e.get_buffer(), "");
}

#[test]
fn push_then_pop_restores_buffer() {
    let mut e = PhoneticEngine::new();
    e.set_buffer(String::from("ami"));
    e.push_char('x');
    assert!(e.pop_char());
    assert_eq!(e.get_buffer(), "ami");
}

#[test]
fn set_and_clear_buffer() {
    let mut e = PhoneticEngine::new();
    e.set_buffer(String::from("bangla"));
    assert_eq!(e.get_buffer(), "bangla");
    assert_eq!(e.translate(), "বাংলা");
    e.clear();
    assert!(e.is_empty());
    assert!(e.bangla_mode);
}

#[test]
fn toggle_mode_flips() {
    let mut e = PhoneticEngine::new();
    e.push_char('a');
    assert!(!e.toggle_mode());
    assert!(!e.bangla_mode);
    assert!(e.toggle_mode());
    assert_eq!(e.get_buffer(), "a");
}
