use openbn::ibus::{
    classify_key, EngineSignal, IBusAttribute, IBusEngine, IBusFactory, IBusText, KeyClass,
    ALT_MASK, CONTROL_MASK, KEY_BACKSPACE, KEY_RETURN, KEY_SPACE, RELEASE_MASK,
};

fn preedit(signal: &EngineSignal) -> (String, u32, bool, usize) {
    match signal {
        EngineSignal::UpdatePreeditText { text, cursor_pos, visible } => {
            (text.text.clone(), *cursor_pos, *visible, text.attributes.len())
        }
        EngineSignal::CommitText { .. } => panic!("expected a preedit update"),
    }
}

fn commit(signal: &EngineSignal) -> String {
    match signal {
        EngineSignal::CommitText { text } => {
            assert!(text.attributes.is_empty());
            text.text.clone()
        }
        EngineSignal::UpdatePreeditText { .. } => panic!("expected a commit"),
    }
}

fn type_keys(engine: &mut IBusEngine, keys: &str) {
    for c in keys.chars() {
        let r = engine.process_key_event(c as u32, 0, 0);
        assert!(r.handled);
    }
}

#[test]
fn typing_shows_translation_as_preedit() {
    let mut engine = IBusEngine::new();
    let r = engine.process_key_event('k' as u32, 0, 0);
    assert!(r.handled);
    assert_eq!(r.signals.len(), 1);
    assert_eq!(preedit(&r.signals[0]), ("ক".to_string(), 1, true, 1));
    let r = engine.process_key_event('a' as u32, 0, 0);
    assert_eq!(preedit(&r.signals[0]), ("কা".to_string(), 2, true, 1));
}

#[test]
fn space_commits_word_and_passes_through() {
    let mut engine = IBusEngine::new();
    type_keys(&mut engine, "ami");
    let r = engine.process_key_event(KEY_SPACE, 0, 0);
    assert!(!r.handled);
    assert_eq!(r.signals.len(), 2);
    assert_eq!(preedit(&r.signals[0]), (String::new(), 0, false, 0));
    assert_eq!(commit(&r.signals[1]), "আমি");
    let r = engine.process_key_event(KEY_SPACE, 0, 0);
    assert!(!r.handled);
    assert!(r.signals.is_empty());
}

#[test]
fn enter_and_punctuation_commit() {
    let mut engine = IBusEngine::new();
    type_keys(&mut engine, "ka");
    let r = engine.process_key_event(KEY_RETURN, 0, 0);
    assert!(!r.handled);
    assert_eq!(commit(&r.signals[1]), "কা");
    type_keys(&mut engine, "ki");
    let r = engine.process_key_event(',' as u32, 0, 0);
    assert!(!r.handled);
    assert_eq!(commit(&r.signals[1]), "কি");
}

#[test]
fn period_and_backtick_are_typed() {
    let mut engine = IBusEngine::new();
    type_keys(&mut engine, "k`a.");
    let r = engine.process_key_event(KEY_SPACE, 0, 0);
    assert_eq!(commit(&r.signals[1]), "কআ।");
}

#[test]
fn backspace_removes_last_key() {
    let mut engine = IBusEngine::new();
    type_keys(&mut engine, "ka");
    let r = engine.process_key_event(KEY_BACKSPACE, 0, 0);
    assert!(r.handled);
    assert_eq!(preedit(&r.signals[0]), ("ক".to_string(), 1, true, 1));
    let r = engine.process_key_event(KEY_BACKSPACE, 0, 0);
    assert!(r.handled);
    assert_eq!(preedit(&r.signals[0]), (String::new(), 0, false, 0));
    let r = engine.process_key_event(KEY_BACKSPACE, 0, 0);
    assert!(!r.handled);
    assert!(r.signals.is_empty());
}

#[test]
fn releases_pass_through() {
    let mut engine = IBusEngine::new();
    let r = engine.process_key_event('k' as u32, 0, RELEASE_MASK);
    assert!(!r.handled);
    assert!(r.signals.is_empty());
    let r = engine.process_key_event(KEY_SPACE, 0, 0);
    assert!(r.signals.is_empty());
}

#[test]
fn control_space_toggles_mode() {
    let mut engine = IBusEngine::new();
    type_keys(&mut engine, "k");
    let r = engine.process_key_event(KEY_SPACE, 0, CONTROL_MASK);
    assert!(r.handled);
    assert_eq!(r.signals.len(), 1);
    assert_eq!(preedit(&r.signals[0]), (String::new(), 0, false, 0));
    let r = engine.process_key_event('k' as u32, 0, 0);
    assert!(!r.handled);
    assert!(r.signals.is_empty());
    let r = engine.process_key_event(KEY_SPACE, 0, CONTROL_MASK);
    assert!(r.handled);
    assert!(r.signals.is_empty());
    let r = engine.process_key_event('k' as u32, 0, 0);
    assert!(r.handled);
}

#[test]
fn shortcuts_pass_through() {
    let mut engine = IBusEngine::new();
    type_keys(&mut engine, "k");
    let r = engine.process_key_event('c' as u32, 0, CONTROL_MASK);
    assert!(!r.handled);
    assert!(r.signals.is_empty());
    let r = engine.process_key_event('x' as u32, 0, ALT_MASK);
    assert!(!r.handled);
    let r = engine.process_key_event('a' as u32, 0, 0);
    assert_eq!(preedit(&r.signals[0]).0, "কা");
}

#[test]
fn reset_hides_pending_word() {
    let mut engine = IBusEngine::new();
    assert!(engine.reset().is_empty());
    type_keys(&mut engine, "ka");
    let signals = engine.reset();
    assert_eq!(signals.len(), 1);
    assert_eq!(preedit(&signals[0]), (String::new(), 0, false, 0));
    let r = engine.process_key_event(KEY_SPACE, 0, 0);
    assert!(r.signals.is_empty());
}

#[test]
fn focus_out_drops_word() {
    let mut engine = IBusEngine::new();
    type_keys(&mut engine, "ka");
    engine.focus_out();
    let r = engine.process_key_event(KEY_SPACE, 0, 0);
    assert!(r.signals.is_empty());
}

#[test]
fn other_keys_pass_through() {
    let mut engine = IBusEngine::new();
    let r = engine.process_key_event(0xFF51, 0, 0);
    assert!(!r.handled);
    assert!(r.signals.is_empty());
}

#[test]
fn key_classes() {
    assert_eq!(classify_key('k' as u32, 0, true), KeyClass::Character('k'));
    assert_eq!(classify_key('k' as u32, RELEASE_MASK, true), KeyClass::Release);
    assert_eq!(classify_key(KEY_SPACE, CONTROL_MASK, false), KeyClass::ToggleMode);
    assert_eq!(classify_key('k' as u32, 0, false), KeyClass::Bypass);
    assert_eq!(classify_key(KEY_BACKSPACE, 0, true), KeyClass::Backspace);
    assert_eq!(classify_key(0xFF8D, 0, true), KeyClass::CommitWord);
    assert_eq!(classify_key('!' as u32, 0, true), KeyClass::CommitWord);
    assert_eq!(classify_key('~' as u32, 0, true), KeyClass::CommitWord);
    assert_eq!(classify_key('.' as u32, 0, true), KeyClass::Character('.'));
    assert_eq!(classify_key('`' as u32, 0, true), KeyClass::Character('`'));
    assert_eq!(classify_key('A' as u32, 1, true), KeyClass::Character('A'));
    assert_eq!(classify_key(0xFFE1, 0, true), KeyClass::Other);
}

#[test]
fn styled_text_underlines_in_bytes() {
    let t = IBusText::styled("কা".to_string());
    assert_eq!(t.text, "কা");
    assert_eq!(
        t.attributes,
        vec![IBusAttribute { attr_type: 1, value: 1, start_index: 0, end_index: 6 }]
    );
    let e = IBusText::styled(String::new());
    assert!(e.attributes.is_empty());
    let p = IBusText::plain("কা".to_string());
    assert!(p.attributes.is_empty());
    assert_eq!(p.text, "কা");
}

#[test]
fn factory_serves_one_engine() {
    let f = IBusFactory;
    assert_eq!(f.create_engine("openbn"), "/org/freedesktop/IBus/Engine/openbn");
    assert_eq!(f.create_engine("other"), "/org/freedesktop/IBus/Engine/openbn");
}
