use libibus_rs::demo::{
    build_component, candidate_table, pkg_authors, should_ignore_key, DemoEngine, DemoFactory,
    EngineAction, InputMode, ENGINE_NAME,
};
use libibus_rs::key::keysym;
use libibus_rs::{KeyEvent, ModifierType};

#[test]
fn test_should_ignore_release() {
    let ev = KeyEvent::new(keysym::a, 0, ModifierType::RELEASE().bits());
    assert!(should_ignore_key(&ev));
}

#[test]
fn test_should_ignore_control() {
    let ev = KeyEvent::new(keysym::a, 0, ModifierType::CONTROL().bits());
    assert!(should_ignore_key(&ev));
}

#[test]
fn test_should_ignore_alt() {
    let ev = KeyEvent::new(keysym::a, 0, ModifierType::MOD1().bits());
    assert!(should_ignore_key(&ev));
}

#[test]
fn test_should_not_ignore_plain_key() {
    let ev = KeyEvent::new(keysym::a, 0, 0);
    assert!(!should_ignore_key(&ev));
}

#[test]
fn test_should_not_ignore_shift() {
    let ev = KeyEvent::new(keysym::a, 0, ModifierType::SHIFT().bits());
    assert!(!should_ignore_key(&ev));
}

#[test]
fn test_should_ignore_control_and_shift() {
    let ev = KeyEvent::new(
        keysym::a,
        0,
        ModifierType::CONTROL().bits() | ModifierType::SHIFT().bits(),
    );
    assert!(should_ignore_key(&ev));
}

#[test]
fn test_demo_engine_new_state() {
    let engine = DemoEngine::new();
    assert!(engine.preedit.is_empty());
    assert!(!engine.aux_visible);
    assert_eq!(engine.mode, InputMode::Japanese);
    assert!(engine.lookup_table.is_none());
}

fn key(keyval: u32) -> KeyEvent {
    KeyEvent::new(keyval, 0, 0)
}

fn commit_of(actions: &[EngineAction]) -> Option<String> {
    actions.iter().find_map(|a| match a {
        EngineAction::CommitText(t) => Some(t.clone()),
        _ => None,
    })
}

#[test]
fn demo_letter_becomes_hiragana() {
    let mut engine = DemoEngine::new();
    let (handled, actions) = engine.process_key_event(&key(keysym::a));
    assert!(handled);
    assert_eq!(engine.preedit, "あ");
    assert_eq!(actions.len(), 1);
    match &actions[0] {
        EngineAction::UpdatePreeditText(t, cursor, visible, mode) => {
            assert_eq!(t, "あ");
            assert_eq!(*cursor, 3);
            assert!(*visible);
            assert_eq!(*mode, 0);
        }
        other => panic!("unexpected action {:?}", other),
    }
    let (handled, _) = engine.process_key_event(&key(keysym::c));
    assert!(handled);
    assert_eq!(engine.preedit, "あい");
}

#[test]
fn demo_enter_commits_preedit() {
    let mut engine = DemoEngine::new();
    engine.preedit = "あいう".to_string();
    let (handled, actions) = engine.process_key_event(&key(keysym::Return));
    assert!(handled);
    assert!(engine.preedit.is_empty());
    assert_eq!(commit_of(&actions).as_deref(), Some("あいう"));
    assert_eq!(actions.len(), 3);
    assert!(matches!(actions[1], EngineAction::HidePreeditText));
    assert!(matches!(actions[2], EngineAction::HideLookupTable));
}

#[test]
fn demo_enter_without_preedit_does_nothing() {
    let mut engine = DemoEngine::new();
    let (handled, actions) = engine.process_key_event(&key(keysym::KP_Enter));
    assert!(handled);
    assert!(actions.is_empty());
}

#[test]
fn demo_backspace_removes_last_char() {
    let mut engine = DemoEngine::new();
    engine.preedit = "あいう".to_string();
    let (handled, actions) = engine.process_key_event(&key(keysym::BackSpace));
    assert!(handled);
    assert_eq!(engine.preedit, "あい");
    assert!(matches!(&actions[0], EngineAction::UpdatePreeditText(t, 6, true, 0) if t == "あい"));

    engine.preedit = "あ".to_string();
    let (_, actions) = engine.process_key_event(&key(keysym::BackSpace));
    assert!(engine.preedit.is_empty());
    assert!(matches!(actions[0], EngineAction::HidePreeditText));

    let (handled, actions) = engine.process_key_event(&key(keysym::BackSpace));
    assert!(handled);
    assert!(actions.is_empty());
}

#[test]
fn demo_escape_clears() {
    let mut engine = DemoEngine::new();
    engine.preedit = "あいう".to_string();
    let (handled, actions) = engine.process_key_event(&key(keysym::Escape));
    assert!(handled);
    assert!(engine.preedit.is_empty());
    assert_eq!(actions.len(), 3);
    assert!(matches!(actions[2], EngineAction::HideAuxiliaryText));
}

#[test]
fn demo_space_shows_lookup() {
    let mut engine = DemoEngine::new();
    engine.preedit = "あいう".to_string();
    let (handled, actions) = engine.process_key_event(&key(keysym::space));
    assert!(handled);
    match &actions[0] {
        EngineAction::UpdateLookupTable(table, visible) => {
            assert!(*visible);
            assert_eq!(table.number_of_candidates(), 5);
            assert_eq!(table.candidates()[0].text, "候補一");
            assert_eq!(table.candidates()[4].text, "候補五");
            assert_eq!(table.orientation(), libibus_rs::LookupOrientation::Horizontal);
        }
        other => panic!("unexpected action {:?}", other),
    }
    let mut empty = DemoEngine::new();
    let (handled, actions) = empty.process_key_event(&key(keysym::space));
    assert!(handled);
    assert!(actions.is_empty());
}

#[test]
fn demo_number_selects_candidate() {
    let mut engine = DemoEngine::new();
    engine.preedit = "あいう".to_string();
    let (handled, actions) = engine.process_key_event(&key(keysym::_3));
    assert!(handled);
    assert!(engine.preedit.is_empty());
    assert!(matches!(actions[0], EngineAction::DeleteSurroundingText(-9, 9)));
    assert_eq!(commit_of(&actions).as_deref(), Some("候補3"));
    assert_eq!(actions.len(), 4);
}

#[test]
fn demo_backtick_toggles_aux() {
    let mut engine = DemoEngine::new();
    assert!(!engine.aux_visible);
    let (handled, actions) = engine.process_key_event(&key(keysym::grave));
    assert!(handled);
    assert!(engine.aux_visible);
    assert!(matches!(&actions[0], EngineAction::UpdateAuxiliaryText(t, true) if t == "変換モード (aux)"));
    let (handled, actions) = engine.process_key_event(&key(keysym::grave));
    assert!(handled);
    assert!(!engine.aux_visible);
    assert!(matches!(actions[0], EngineAction::HideAuxiliaryText));
}

#[test]
fn demo_tilde_requires_surrounding_text() {
    let mut engine = DemoEngine::new();
    let (handled, actions) = engine.process_key_event(&key(keysym::asciitilde));
    assert!(handled);
    assert!(matches!(actions[0], EngineAction::RequireSurroundingText));
}

#[test]
fn demo_other_keys_not_consumed() {
    let mut engine = DemoEngine::new();
    let (handled, actions) = engine.process_key_event(&key(keysym::Tab));
    assert!(!handled);
    assert!(actions.is_empty());
}

#[test]
fn demo_english_mode_commits_letters() {
    let mut engine = DemoEngine::new();
    engine.mode = InputMode::English;
    let (handled, actions) = engine.process_key_event(&key(keysym::a));
    assert!(handled);
    assert_eq!(commit_of(&actions).as_deref(), Some("a"));
    let ev = KeyEvent::new(keysym::A, 0, ModifierType::SHIFT().bits());
    let (handled, actions) = engine.process_key_event(&ev);
    assert!(handled);
    assert_eq!(commit_of(&actions).as_deref(), Some("A"));
    for k in [keysym::_1, keysym::space, keysym::Return] {
        let (handled, actions) = engine.process_key_event(&key(k));
        assert!(!handled);
        assert!(actions.is_empty());
    }
}

#[test]
fn demo_ctrl_space_switches_mode() {
    let mut engine = DemoEngine::new();
    engine.preedit = "あ".to_string();
    let ev = KeyEvent::new(keysym::space, 0, ModifierType::CONTROL().bits());
    let (handled, actions) = engine.process_key_event(&ev);
    assert!(handled);
    assert_eq!(engine.mode, InputMode::English);
    assert!(engine.preedit.is_empty());
    assert_eq!(actions.len(), 3);
    assert!(matches!(actions[2], EngineAction::RegisterProperties(_)));
    let (handled, actions) = engine.process_key_event(&ev);
    assert!(handled);
    assert_eq!(engine.mode, InputMode::Japanese);
    assert_eq!(actions.len(), 4);
    assert!(matches!(actions[3], EngineAction::ShowPreeditText));
}

#[test]
fn demo_modified_keys_are_ignored() {
    let mut engine = DemoEngine::new();
    let ev = KeyEvent::new(keysym::a, 0, ModifierType::MOD1().bits());
    let (handled, actions) = engine.process_key_event(&ev);
    assert!(!handled);
    assert!(actions.is_empty());
    assert!(engine.preedit.is_empty());
}

#[test]
fn demo_property_activate_modes() {
    let mut engine = DemoEngine::new();
    let actions = engine.property_activate("mode_japanese", 0);
    assert_eq!(engine.mode, InputMode::Japanese);
    assert!(actions.is_empty());

    engine.preedit = "あいう".to_string();
    let actions = engine.property_activate("mode_english", 0);
    assert_eq!(engine.mode, InputMode::English);
    assert!(engine.preedit.is_empty());
    assert_eq!(actions.len(), 3);

    let actions = engine.property_activate("mode_english", 0);
    assert_eq!(engine.mode, InputMode::English);
    assert!(actions.is_empty());

    let actions = engine.property_activate("mode_japanese", 0);
    assert_eq!(engine.mode, InputMode::Japanese);
    assert_eq!(actions.len(), 3);
}

#[test]
fn demo_property_activate_info_and_unknown() {
    let mut engine = DemoEngine::new();
    let actions = engine.property_activate("info", 0);
    assert!(engine.aux_visible);
    assert!(matches!(&actions[0], EngineAction::UpdateAuxiliaryText(t, true)
        if t == "libibus-rs demo — https://github.com/orrisroot/libibus-rs"));
    let actions = engine.property_activate("unknown_prop", 0);
    assert!(actions.is_empty());
    assert_eq!(engine.mode, InputMode::Japanese);
}

#[test]
fn demo_mode_menu() {
    let mut engine = DemoEngine::new();
    let menu = engine.mode_menu_prop();
    assert_eq!(menu.key, "mode");
    assert_eq!(menu.prop_type, 3);
    assert_eq!(menu.icon, "ibus-keyboard-jp");
    assert_eq!(menu.sub_props.len(), 2);
    assert_eq!(menu.sub_props.props[0].key, "mode_japanese");
    assert_eq!(menu.sub_props.props[0].state, 1);
    assert_eq!(menu.sub_props.props[0].symbol.text, "あ");
    assert_eq!(menu.sub_props.props[1].state, 0);
    engine.mode = InputMode::English;
    let menu = engine.mode_menu_prop();
    assert_eq!(menu.icon, "ibus-keyboard-us");
    assert_eq!(menu.sub_props.props[1].state, 1);
    let props = engine.engine_properties();
    assert_eq!(props.len(), 2);
    assert_eq!(props.props[0].key, "setup");
}

#[test]
fn demo_focus_and_reset() {
    let mut engine = DemoEngine::new();
    let actions = engine.focus_in();
    assert_eq!(actions.len(), 2);
    assert!(matches!(actions[0], EngineAction::ShowPreeditText));
    engine.mode = InputMode::English;
    assert_eq!(engine.focus_in().len(), 1);
    assert_eq!(engine.focus_out().len(), 3);
    engine.preedit = "テスト".to_string();
    let actions = engine.reset();
    assert!(engine.preedit.is_empty());
    assert_eq!(actions.len(), 2);
}

#[test]
fn demo_candidate_clicked_and_destroy() {
    let mut engine = DemoEngine::new();
    engine.preedit = "あいう".to_string();
    let actions = engine.candidate_clicked(0, 1, 0);
    assert_eq!(engine.preedit, "");
    assert_eq!(commit_of(&actions).as_deref(), Some("候補1"));
    engine.preedit = "あいう".to_string();
    engine.destroy();
    assert!(engine.preedit.is_empty());
    assert!(engine.lookup_table.is_none());
}

#[test]
fn demo_factory_and_component() {
    let mut factory = DemoFactory;
    let engine = factory.create_engine("libibus-rs-demo");
    assert_eq!(engine.mode, InputMode::Japanese);
    assert_eq!(pkg_authors("Alice <a@x>:Bob"), "Alice <a@x>");
    assert_eq!(pkg_authors("Solo"), "Solo");
    let c = build_component("/usr/bin/demo", "Demo", "1.2.3", "MIT", "Alice:Bob", "https://h");
    assert_eq!(c.name, "com.github.orrisroot.libibus-rs.Demo");
    assert_eq!(c.author, "Alice");
    assert_eq!(c.exec_args, vec!["--ibus".to_string()]);
    assert_eq!(c.engines[0].name, ENGINE_NAME);
    assert_eq!(c.engines[0].symbol, "あ");
    assert_eq!(c.engines[0].license, "MIT");
    assert_eq!(candidate_table().number_of_candidates(), 5);
}

#[test]
fn demo_backspace_undoes_letter() {
    let mut engine = DemoEngine::new();
    engine.preedit = "かな".to_string();
    engine.process_key_event(&key(keysym::z));
    assert_eq!(engine.preedit.chars().count(), 3);
    engine.process_key_event(&key(keysym::BackSpace));
    assert_eq!(engine.preedit, "かな");
}
