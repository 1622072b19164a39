use libibus_rs::input_context::{Caps, Hint, Purpose};
use libibus_rs::key::keysym;
use libibus_rs::lookup_table::LookupTable;
use libibus_rs::prop::{Prop, PropList, PropState};
use libibus_rs::{Attr, AttrList, AttrType, Component, EngineDesc, KeyEvent, ModifierType, Text};

#[test]
fn test_component_creation() {
    let mut comp = Component::new(
        "test-comp",
        "Test Component",
        "1.0.0",
        "MIT",
        "Test Author",
        "https://example.com",
        "/usr/bin/test-engine",
    );

    assert_eq!(comp.name, "test-comp");
    assert_eq!(comp.engines.len(), 0);

    let mut engine = EngineDesc::new("test-eng", "Test Engine", "A test engine", "ja");
    engine
        .set_license("MIT")
        .set_author("Author")
        .set_symbol("あ")
        .set_version("2.0");

    comp.add_engine(engine);
    assert_eq!(comp.engines.len(), 1);
    assert_eq!(comp.engines[0].name, "test-eng");
    assert_eq!(comp.engines[0].symbol, "あ");
    assert_eq!(comp.engines[0].version, "2.0");
}

#[test]
fn test_component_xml_generation() {
    let mut comp = Component::new(
        "test-xml",
        "Test XML",
        "0.1.0",
        "MIT",
        "Author",
        "https://example.com",
        "/usr/bin/test",
    );
    comp.add_engine(EngineDesc::new("eng", "Engine", "Desc", "ja"));

    let xml = libibus_rs::xml::component_to_xml(&comp);
    assert!(xml.starts_with("<?xml"));
    assert!(xml.contains("<component>"));
    assert!(xml.contains("<name>test-xml</name>"));
    assert!(xml.contains("<engine>"));
    assert!(xml.contains("<name>eng</name>"));
}

#[test]
fn test_text_creation() {
    let t = Text::new("hello");
    assert_eq!(t.text, "hello");
    assert_eq!(t.cursor_pos, 5);
    assert_eq!(t.len(), 5);
    assert!(!t.is_empty());
}

#[test]
fn test_text_append_and_clear() {
    let mut t = Text::new("hello");
    t.append(" world");
    assert_eq!(t.text, "hello world");
    assert_eq!(t.cursor_pos, 11);

    t.clear();
    assert!(t.is_empty());
    assert_eq!(t.cursor_pos, 0);
}

#[test]
fn test_text_from_str() {
    let t: Text = "from str".into();
    assert_eq!(t.text, "from str");
}

#[test]
fn test_attr_list() {
    let mut attrs = AttrList::new();
    attrs.append(Attr::underline(1, 0, 5));
    attrs.append(Attr::foreground(0xFF0000FF, 0, 5));
    assert_eq!(attrs.len(), 2);
    assert!(!attrs.is_empty());
}

#[test]
fn test_attr_type_conversion() {
    assert_eq!(AttrType::Underline.to_u32(), 0);
    assert_eq!(AttrType::Foreground.to_u32(), 1);
    assert_eq!(AttrType::Background.to_u32(), 2);
    assert!(AttrType::from_u32(0) == Some(AttrType::Underline));
    assert!(AttrType::from_u32(99).is_none());
}

#[test]
fn test_lookup_table_basic() {
    let mut table = LookupTable::new();
    assert!(table.is_empty());
    assert_eq!(table.number_of_candidates(), 0);

    table.append_candidate(Text::new("候補1"));
    table.append_candidate(Text::new("候補2"));
    table.append_candidate(Text::new("候補3"));

    assert_eq!(table.number_of_candidates(), 3);
    assert!(!table.is_empty());
}

#[test]
fn test_lookup_table_cursor_navigation() {
    let mut table = LookupTable::new();
    for i in 1..=10 {
        table.append_candidate(Text::new(&format!("c{}", i)));
    }

    table.set_cursor_pos(0);
    assert_eq!(table.cursor_pos(), 0);

    assert!(table.cursor_down());
    assert_eq!(table.cursor_pos(), 1);

    assert!(table.cursor_up());
    assert_eq!(table.cursor_pos(), 0);
}

#[test]
fn test_lookup_table_paging() {
    let mut table = LookupTable::new();
    for i in 1..=15 {
        table.append_candidate(Text::new(&format!("c{}", i)));
    }
    table.set_page_size(5);

    // 15 candidates, page_size=5 → 3 pages (0, 5, 10)
    assert!(table.page_down()); // → 5
    assert!(table.page_down()); // → 10
    assert!(!table.page_down()); // already on last page

    assert!(table.page_up()); // → 5
    assert!(table.page_up()); // → 0
    assert!(!table.page_up()); // already on first page
}

#[test]
fn test_lookup_table_current_page() {
    let mut table = LookupTable::new();
    for i in 1..=10 {
        table.append_candidate(Text::new(&format!("c{}", i)));
    }
    table.set_page_size(3);

    let page = table.current_page();
    assert_eq!(page.len(), 3);
    assert_eq!(page[0].text, "c1");
}

#[test]
fn test_prop_toggle() {
    let mut prop = Prop::toggle("mode", "変換");
    assert!(prop.is_toggle());
    assert!(!prop.is_checked());

    prop.set_checked(true);
    assert!(prop.is_checked());
    assert_eq!(prop.state, PropState::Checked as u32);

    prop.set_checked(false);
    assert!(!prop.is_checked());
    assert_eq!(prop.state, PropState::Unchecked as u32);
}

#[test]
fn test_prop_separator() {
    let prop = Prop::separator();
    assert!(prop.is_separator());
    assert!(!prop.sensitive);
}

#[test]
fn test_prop_list() {
    let mut pl = PropList::new();
    assert!(pl.is_empty());

    pl.append(Prop::new("key1", "Label1"));
    pl.append(Prop::toggle("key2", "Toggle"));
    assert_eq!(pl.len(), 2);

    let found = pl.get("key1");
    assert!(found.is_some());
    assert_eq!(found.unwrap().label.text, "Label1");

    assert!(pl.get("nonexistent").is_none());
}

#[test]
fn test_prop_list_update() {
    let mut pl = PropList::new();
    let prop = Prop::toggle("mode", "Off");
    pl.append(prop);

    let mut updated = Prop::new("mode", "On");
    updated.set_state(PropState::Checked);
    pl.update_property(&updated);

    let found = pl.get("mode").unwrap();
    assert_eq!(found.state, PropState::Checked as u32);
    assert_eq!(found.label.text, "On");
}

#[test]
fn test_key_event_creation() {
    let ev = KeyEvent::new(0x0061, 0x26, 0);
    assert_eq!(ev.keyval, 0x0061);
    assert_eq!(ev.keycode, 0x26);
    assert!(!ev.modifiers().is_shift());
}

#[test]
fn test_key_event_modifiers() {
    let ev = KeyEvent::new(
        0x0061,
        0x26,
        ModifierType::SHIFT().bits() | ModifierType::CONTROL().bits(),
    );
    assert!(ev.modifiers().is_shift());
    assert!(ev.modifiers().is_control());
    assert!(!ev.modifiers().is_alt());
}

#[test]
fn test_key_event_from_tuple() {
    let ev: KeyEvent = (0x0061, 0x26, 0).into();
    assert_eq!(ev.keyval, 0x0061);
}

#[test]
fn test_key_event_is_modifier() {
    let shift = KeyEvent::new(keysym::Shift_L, 0, 0);
    assert!(shift.is_modifier());

    let ctrl = KeyEvent::new(keysym::Control_L, 0, 0);
    assert!(ctrl.is_modifier());

    let a = KeyEvent::new(keysym::a, 0, 0);
    assert!(!a.is_modifier());
}

#[test]
fn test_modifier_type_flags() {
    let m = ModifierType::SHIFT() | ModifierType::MOD4();
    assert!(m.contains(ModifierType::SHIFT()));
    assert!(m.contains(ModifierType::MOD4()));
    assert!(!m.contains(ModifierType::CONTROL()));

    assert!(m.is_shift());
    assert!(m.is_super());
    assert!(!m.is_control());
}

#[test]
fn test_caps_bitwise() {
    let caps = Caps::SURROUNDING() | Caps::PREEDIT_ATTR() | Caps::LOOKUP_TABLE();
    assert!(caps.contains(Caps::SURROUNDING()));
    assert!(caps.contains(Caps::PREEDIT_ATTR()));
    assert!(caps.contains(Caps::LOOKUP_TABLE()));
}

#[test]
fn test_caps_none() {
    assert_eq!(Caps::empty().bits(), 0);
}

#[test]
fn hint_and_purpose_codes() {
    let h = Hint::LOWERCASE() | Hint::NO_PREDICTIVE();
    assert!(h.contains(Hint::LOWERCASE()));
    assert!(!h.contains(Hint::UPPERCASE()));
    assert_eq!(Hint::NONE().bits(), 0);
    assert_eq!(Purpose::Password.to_u32(), 7);
    assert_eq!(Purpose::from_u32(8), Some(Purpose::Caption));
    assert_eq!(Purpose::from_u32(9), None);
    let p: Purpose = 42u32.into();
    assert_eq!(p, Purpose::Normal);
    let n: u32 = Purpose::Email.into();
    assert_eq!(n, 5);
}
