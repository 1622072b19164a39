use libibus_rs::address::{
    connect_address, display_number, is_address_file_for, parse_address, IntErrorKind,
};
use libibus_rs::config::{config_bool, config_i32, config_string};
use libibus_rs::engine::surrounding_text;
use libibus_rs::factory::{engine_path, FACTORY_PATH};
use libibus_rs::gvalue::{unwrap_serializable, wrap_serializable, GValue};
use libibus_rs::lookup_table::LookupTable;
use libibus_rs::prop::{Prop, PropList, PropState, PropType};
use libibus_rs::LookupOrientation;
use libibus_rs::strings::u32_to_decimal;
use libibus_rs::xml::{component_xml_nodes, escape_xml, XmlNode};
use libibus_rs::key::keysym;
use libibus_rs::{Attr, AttrList, Component, EngineDesc, Error, KeyEvent, ModifierType, Text};

#[test]
fn xml_escape_replaces_specials() {
    assert_eq!(escape_xml("a<b>&\"c'"), "a&lt;b&gt;&amp;&quot;c&apos;");
    assert_eq!(escape_xml("plain テキスト"), "plain テキスト");
    assert_eq!(escape_xml(""), "");
}

#[test]
fn xml_document_layout() {
    let mut comp = Component::new("c", "D", "1", "MIT", "A", "h", "/bin/x");
    comp.set_exec_args(vec!["--ibus", "-v"]);
    comp.set_text_domain("td");
    comp.add_watch_path("/etc/x.conf");
    let mut e = EngineDesc::new("e", "E", "desc", "ja");
    e.set_layout("jp").set_rank(7).set_hotkeys(vec!["Ctrl+a", "Ctrl+b"]);
    comp.add_engine(e);
    let xml = libibus_rs::component_to_xml(&comp);
    assert!(xml.starts_with("<?xml version=\"1.0\" encoding=\"utf-8\"?>"));
    assert!(xml.contains("<!-- filename: c.xml -->"));
    assert!(xml.contains("<textdomain>td</textdomain>"));
    assert!(xml.contains("<exec exec=\"/bin/x\" args=\"--ibus -v\"/>"));
    assert!(xml.contains("<watch>/etc/x.conf</watch>"));
    assert!(xml.contains("<layout>jp</layout>"));
    assert!(xml.contains("<hotkeys>Ctrl+a,Ctrl+b</hotkeys>"));
    assert!(xml.contains("<rank>7</rank>"));
    assert!(xml.contains("\n  <name>c</name>"));
    assert!(xml.contains("\n    <name>e</name>"));
    assert!(xml.trim_end().ends_with("</component>"));
}

#[test]
fn xml_default_layout_omitted() {
    let mut comp = Component::new("c", "D", "1", "MIT", "A", "h", "");
    comp.add_engine(EngineDesc::new("e", "E", "desc", "ja"));
    let xml = libibus_rs::component_to_xml(&comp);
    assert!(!xml.contains("<layout>"));
    assert!(!xml.contains("<symbol>"));
    assert!(xml.contains("<exec/>"));
    assert!(xml.contains("<rank>2</rank>"));
    assert!(xml.contains("<version>0.1.0</version>"));
}

#[test]
fn xml_text_is_escaped_twice() {
    let comp = Component::new("a&b", "D", "1", "MIT", "A", "h", "/bin/x");
    let nodes = component_xml_nodes(&comp);
    match &nodes[4] {
        XmlNode::Text(t) => assert_eq!(t, "a&amp;b"),
        _ => panic!("expected the name's text"),
    }
    let xml = libibus_rs::component_to_xml(&comp);
    assert!(xml.contains("<name>a&amp;amp;b</name>"));
}

#[test]
fn address_parses_unix_path() {
    let a = parse_address("--host=\n--port=0\n--address=unix:path=/tmp/ibus-sock\n").unwrap();
    assert_eq!(a.socket_path, "/tmp/ibus-sock");
    assert_eq!(a.port, 0);
    assert_eq!(connect_address("--address=unix:path=/tmp/s").unwrap(), "unix:path=/tmp/s");
}

#[test]
fn address_parses_abstract_socket() {
    let a = parse_address("  --address=unix:abstract=/tmp/dbus-X  \r\n").unwrap();
    assert_eq!(a.socket_path, "@/tmp/dbus-X");
    assert_eq!(
        connect_address("--address=unix:abstract=/tmp/dbus-X").unwrap(),
        "unix:abstract=/tmp/dbus-X"
    );
}

#[test]
fn address_parameters_in_any_order() {
    assert_eq!(
        connect_address("--address=unix:guid=abc,path=/tmp/ibus-sock").unwrap(),
        "unix:path=/tmp/ibus-sock"
    );
    assert_eq!(
        connect_address("--address=unix:guid=abc,abstract=/tmp/dbus-X\n").unwrap(),
        "unix:abstract=/tmp/dbus-X"
    );
    let a = parse_address("--address=unix:path=/run/ibus,guid=0123").unwrap();
    assert_eq!(a.socket_path, "/run/ibus");
    let a = parse_address("--address=unix:guid=1,tmpdir=/tmp").unwrap();
    assert_eq!(a.socket_path, "guid=1,tmpdir=/tmp");
    let a = parse_address("--address=unix:guid=1,,abstract=x,path=/p").unwrap();
    assert_eq!(a.socket_path, "@x");
}

#[test]
fn address_other_forms() {
    let a = parse_address("--address=unix:tmpdir=/tmp").unwrap();
    assert_eq!(a.socket_path, "tmpdir=/tmp");
    let a = parse_address("--address=tcp:host=x").unwrap();
    assert_eq!(a.socket_path, "tcp:host=x");
    assert_eq!(
        connect_address("--host=localhost\n--port=+4567\n").unwrap(),
        "tcp:host=localhost,port=4567"
    );
    let a = parse_address("--host=a\n--host=b\n").unwrap();
    assert_eq!(a.host, "b");
}

#[test]
fn address_errors() {
    match parse_address("# nothing here\n") {
        Err(Error::Address(m)) => assert_eq!(m, "No valid address found in IBus address file"),
        other => panic!("unexpected {:?}", other),
    }
    match parse_address("--port=12x") {
        Err(Error::Address(m)) => assert_eq!(m, "Invalid port: invalid digit found in string"),
        other => panic!("unexpected {:?}", other),
    }
    match parse_address("--port=") {
        Err(Error::Address(m)) => assert_eq!(m, "Invalid port: cannot parse integer from empty string"),
        other => panic!("unexpected {:?}", other),
    }
    match connect_address("--port=4294967296") {
        Err(Error::Address(m)) => assert_eq!(m, "Invalid port: number too large to fit in target type"),
        other => panic!("unexpected {:?}", other),
    }
    assert_eq!(parse_address("--port=4294967295").unwrap().port, u32::MAX);
    let _ = IntErrorKind::Empty;
}

#[test]
fn address_display_and_files() {
    assert_eq!(display_number(":0"), "0");
    assert_eq!(display_number(":1.0"), "1");
    assert_eq!(display_number("::12.3.4"), "12");
    assert!(is_address_file_for("0-unix-original", "0"));
    assert!(is_address_file_for("0", "0"));
    assert!(!is_address_file_for("10-unix", "1"));
    assert!(!is_address_file_for("0unix", "0"));
}

#[test]
fn factory_paths() {
    assert_eq!(FACTORY_PATH, "/org/freedesktop/IBus/Factory");
    assert_eq!(engine_path(0), "/org/freedesktop/IBus/Engine/0");
    assert_eq!(engine_path(42), "/org/freedesktop/IBus/Engine/42");
    assert_eq!(u32_to_decimal(4294967295), "4294967295");
}

#[test]
fn config_values() {
    assert_eq!(config_string(&GValue::Str("v".to_string())).unwrap(), "v");
    assert!(matches!(config_string(&GValue::I32(1)), Err(Error::InvalidArgument(m)) if m == "Value is not a string"));
    assert_eq!(config_i32(&GValue::I32(-3)).unwrap(), -3);
    assert_eq!(config_i32(&GValue::U32(0xffff_ffff)).unwrap(), -1);
    assert!(matches!(config_i32(&GValue::Bool(true)), Err(Error::InvalidArgument(m)) if m == "Value is not an int32"));
    assert!(config_bool(&GValue::Bool(true)).unwrap());
    assert!(matches!(config_bool(&GValue::U32(1)), Err(Error::InvalidArgument(m)) if m == "Value is not a bool"));
}

#[test]
fn surrounding_text_of_values() {
    let v = Text::new("hello").to_value();
    assert_eq!(surrounding_text(&v), "hello");
    let short = wrap_serializable("IBusText", GValue::Str("x".to_string()));
    assert_eq!(surrounding_text(&short), "x");
    let other = wrap_serializable("IBusProperty", GValue::Str("x".to_string()));
    assert_eq!(surrounding_text(&other), "");
    assert_eq!(surrounding_text(&GValue::U32(3)), "");
}

#[test]
fn serializable_envelope() {
    let v = wrap_serializable("IBusText", GValue::Struct(vec![GValue::Str("t".to_string()), GValue::U32(1)]));
    match &v {
        GValue::Struct(f) => assert_eq!(f.len(), 4),
        _ => panic!("expected a structure"),
    }
    match unwrap_serializable(&v, "IBusText") {
        Ok(GValue::Struct(f)) => assert_eq!(f.len(), 2),
        other => panic!("unexpected {:?}", other),
    }
    match unwrap_serializable(&v, "IBusAttribute") {
        Err(Error::Connection(m)) => assert_eq!(m, "Expected class IBusAttribute, got IBusText"),
        other => panic!("unexpected {:?}", other),
    }
    match unwrap_serializable(&GValue::Bool(true), "IBusText") {
        Err(Error::Connection(m)) => {
            assert_eq!(m, "Invalid IBusSerializable value structure (expected IBusText)")
        }
        other => panic!("unexpected {:?}", other),
    }
}

#[test]
fn text_roundtrip_value() {
    let mut attrs = AttrList::new();
    attrs.append(Attr::background(0xff, 1, 2));
    let t = Text::with_cursor("héllo", attrs, 1);
    let back = Text::from_value(&t.to_value()).unwrap();
    assert_eq!(back.text, "héllo");
    assert_eq!(back.cursor_pos, 6);
    assert_eq!(back.attrs.len(), 1);
    assert!(Text::from_value(&GValue::U32(0)).is_err());
}

#[test]
fn attr_roundtrip_value() {
    let a = Attr::underline(1, 0, 5);
    let b = Attr::from_value(&a.to_value()).unwrap();
    assert_eq!(a, b);
    let l = AttrList::from(vec![a, Attr::foreground(2, 3, 4)]);
    let back = AttrList::from_value(&l.to_value()).unwrap();
    assert_eq!(back.len(), 2);
}

#[test]
fn lookup_table_roundtrip_value() {
    let mut t = LookupTable::new();
    for i in 0..7 {
        t.append_candidate(Text::new(&format!("c{}", i)));
    }
    t.set_cursor_pos(6);
    t.set_round(true);
    let back = LookupTable::from_value(&t.to_value()).unwrap();
    assert_eq!(back.number_of_candidates(), 7);
    assert_eq!(back.cursor_pos(), 6);
    assert!(back.round());
    assert_eq!(back.page_size(), 5);
    let copy = t.clone();
    assert_eq!(copy.cursor_pos(), 6);
}

#[test]
fn lookup_table_navigation_laws() {
    let mut t = LookupTable::new();
    for i in 0..12 {
        t.append_candidate(Text::new(&format!("c{}", i)));
    }
    t.set_cursor_pos(2);
    assert!(t.cursor_down());
    assert!(t.cursor_up());
    assert_eq!(t.cursor_pos(), 2);
    assert!(t.page_down());
    assert_eq!(t.cursor_pos(), 7);
    assert!(t.page_up());
    assert_eq!(t.cursor_pos(), 2);
    t.set_cursor_pos(100);
    assert_eq!(t.cursor_pos(), 11);
    assert_eq!(t.cursor_pos_in_page(), 1);
    assert_eq!(t.get_current_candidate().unwrap().text, "c11");
    assert_eq!(t.current_page().len(), 2);
}

fn table_of(n: usize) -> LookupTable {
    let mut t = LookupTable::new();
    for i in 0..n {
        t.append_candidate(Text::new(&format!("c{}", i)));
    }
    t
}

#[test]
fn lookup_table_page_up_wraps_to_last_page() {
    let mut t = table_of(15);
    t.set_round(true);
    assert!(t.page_up());
    assert_eq!(t.cursor_pos(), 10);
    assert_eq!(t.cursor_pos_in_page(), 0);
    let mut t = table_of(12);
    t.set_round(true);
    t.set_cursor_pos(3);
    assert!(t.page_up());
    assert_eq!(t.cursor_pos(), 11);
    assert_eq!(t.cursor_pos_in_page(), 1);
    let mut t = table_of(3);
    t.set_round(true);
    t.set_cursor_pos(2);
    assert!(t.page_up());
    assert_eq!(t.cursor_pos(), 2);
}

#[test]
fn lookup_table_page_down_reaches_short_last_page() {
    let mut t = table_of(12);
    t.set_cursor_pos(8);
    assert!(t.page_down());
    assert_eq!(t.cursor_pos(), 11);
    assert_eq!(t.cursor_pos_in_page(), 1);
    assert!(!t.page_down());
    assert_eq!(t.cursor_pos(), 11);
    t.set_round(true);
    assert!(t.page_down());
    assert_eq!(t.cursor_pos(), 0);
    let mut t = table_of(12);
    t.set_page_size(0);
    assert!(!t.page_down());
}

#[test]
fn lookup_table_cursor_in_page_stays_on_candidates() {
    let mut t = table_of(7);
    t.set_cursor_pos(5);
    t.set_cursor_pos_in_page(3);
    assert_eq!(t.cursor_pos(), 5);
    t.set_cursor_pos_in_page(1);
    assert_eq!(t.cursor_pos(), 6);
    assert_eq!(t.cursor_pos_in_page(), 1);
    t.set_cursor_pos_in_page(5);
    assert_eq!(t.cursor_pos(), 6);
    let empty = LookupTable::new();
    assert!(empty.get_current_candidate().is_none());
}

#[test]
fn prop_roundtrip_value() {
    let mut menu = Prop::new("menu", "Menu");
    let mut subs = PropList::new();
    let mut r = Prop::radio("r1", "R1");
    r.set_state(PropState::Checked).set_symbol("S");
    subs.append(r);
    menu.set_sub_props(subs);
    let back = Prop::from_value(&menu.to_value()).unwrap();
    assert_eq!(back.key, "menu");
    assert_eq!(back.sub_props.len(), 1);
    assert_eq!(back.sub_props.props[0].symbol.text, "S");
    let mut list = PropList::new();
    list.append(menu);
    let back = PropList::from_value(&list.to_value()).unwrap();
    assert_eq!(back.get("r1").unwrap().state, 1);
    let copy = list.clone();
    assert_eq!(copy.get("r1").unwrap().key, "r1");
}

#[test]
fn prop_update_nested_and_missing() {
    let mut list = PropList::new();
    let mut menu = Prop::new("menu", "Menu");
    let mut subs = PropList::new();
    subs.append(Prop::toggle("inner", "Off"));
    menu.set_sub_props(subs);
    list.append(menu);
    let mut u = Prop::new("inner", "On");
    u.set_checked(true);
    list.update_property(&u);
    let found = list.get("inner").unwrap();
    assert_eq!(found.label.text, "On");
    assert_eq!(found.state, 1);
    assert_eq!(found.prop_type, 1);
    let before = list.get("menu").unwrap().label.text.clone();
    list.update_property(&Prop::new("absent", "X"));
    assert_eq!(list.get("menu").unwrap().label.text, before);
}

#[test]
fn component_wire_value() {
    let mut comp = Component::new("c", "D", "1", "MIT", "A", "h", "/bin/x");
    comp.set_exec_args(vec!["--ibus"]);
    comp.add_engine(EngineDesc::new("e", "E", "desc", "ja"));
    assert_eq!(comp.command_line(), "/bin/x --ibus");
    match comp.to_value() {
        GValue::Struct(f) => assert_eq!(f.len(), 12),
        _ => panic!("expected a structure"),
    }
}

fn connection_message<T: std::fmt::Debug>(r: Result<T, Error>) -> String {
    match r {
        Err(Error::Connection(m)) => m,
        other => panic!("unexpected {:?}", other),
    }
}

#[test]
fn decode_error_messages() {
    let bad_attr = wrap_serializable(
        "IBusAttribute",
        GValue::Struct(vec![GValue::U32(0), GValue::Str("x".to_string()), GValue::U32(0), GValue::U32(0)]),
    );
    assert_eq!(connection_message(Attr::from_value(&bad_attr)), "Invalid value: incorrect type");
    let short_attr = wrap_serializable("IBusAttribute", GValue::Struct(vec![GValue::U32(0), GValue::U32(1)]));
    assert_eq!(connection_message(Attr::from_value(&short_attr)), "Invalid IBusAttribute inner structure");
    let list = wrap_serializable("IBusAttrList", GValue::Array(vec![GValue::Variant(Box::new(bad_attr))]));
    assert_eq!(connection_message(AttrList::from_value(&list)), "Invalid value: incorrect type");
    let bad_text = wrap_serializable("IBusText", GValue::Struct(vec![GValue::U32(1), GValue::U32(2)]));
    assert_eq!(connection_message(Text::from_value(&bad_text)), "Invalid text: incorrect type");

    let mut t = LookupTable::new();
    t.append_candidate(Text::new("a"));
    let good = t.to_value();
    let mut fields = match unwrap_serializable(&good, "IBusLookupTable") {
        Ok(GValue::Struct(f)) => f,
        other => panic!("unexpected {:?}", other),
    };
    fields[5] = GValue::U32(0);
    let bad_table = wrap_serializable("IBusLookupTable", GValue::Struct(fields));
    assert_eq!(connection_message(LookupTable::from_value(&bad_table)), "Invalid candidates array");

    let mut p = Prop::new("k", "L");
    p.set_sensitive(false);
    let mut pf = match unwrap_serializable(&p.to_value(), "IBusProperty") {
        Ok(GValue::Struct(f)) => f,
        other => panic!("unexpected {:?}", other),
    };
    pf[7] = GValue::Bool(true);
    let bad_prop = wrap_serializable("IBusProperty", GValue::Struct(pf));
    assert_eq!(connection_message(Prop::from_value(&bad_prop)), "Invalid state: incorrect type");
    assert_eq!(
        connection_message(PropList::from_value(&Text::new("x").to_value())),
        "Expected class IBusPropList, got IBusText"
    );
}

#[test]
fn error_messages() {
    assert_eq!(Error::Address("x".to_string()).message(), "Address error: x");
    assert_eq!(Error::NotConnected.message(), "Not connected to IBus daemon");
    assert_eq!(Error::InvalidArgument("y".to_string()).message(), "Invalid argument: y");
}

#[test]
fn code_conversions_roundtrip() {
    for n in 0..5u32 {
        let t: PropType = n.into();
        assert_eq!(u32::from(t), n);
    }
    let t: PropType = 9u32.into();
    assert_eq!(t, PropType::Normal);
    for n in 0..3u32 {
        let s: PropState = n.into();
        assert_eq!(u32::from(s), n);
        let o: LookupOrientation = n.into();
        assert_eq!(u32::from(o), n);
    }
    let o: LookupOrientation = 7u32.into();
    assert_eq!(o, LookupOrientation::Vertical);
    let s: PropState = 7u32.into();
    assert_eq!(s, PropState::Unchecked);
}

#[test]
fn xml_nodes_are_well_nested() {
    let mut comp = Component::new("c", "D", "1", "MIT", "A", "h", "/bin/x");
    comp.add_watch_path("/a");
    comp.add_engine(EngineDesc::new("e1", "E", "d", "ja"));
    comp.add_engine(EngineDesc::new("e2", "E", "d", "en"));
    let mut open: Vec<String> = Vec::new();
    for node in component_xml_nodes(&comp) {
        match node {
            XmlNode::Start(t) => open.push(t),
            XmlNode::End(t) => assert_eq!(open.pop(), Some(t)),
            _ => {}
        }
    }
    assert!(open.is_empty());
    assert_eq!(Text::new("shown").display(), "shown");
}

#[test]
fn key_modifier_keys_exclude_delete() {
    assert!(!KeyEvent::new(keysym::Delete, 0, 0).is_modifier());
    assert!(!KeyEvent::new(keysym::Return, 0, 0).is_modifier());
    assert!(KeyEvent::new(keysym::Hyper_R, 0, 0).is_modifier());
    assert!(KeyEvent::new(keysym::Alt_L, 0, 0).is_modifier());
    assert!(KeyEvent::new(keysym::ISO_Level3_Shift, 0, 0).is_modifier());
    assert!(KeyEvent::new(keysym::ISO_Next_Group, 0, 0).is_modifier());
}

#[test]
fn key_modifiers_read_back_after_set() {
    let mut ev = KeyEvent::new(keysym::a, 38, 0xffff_ffff);
    let m = ModifierType::CONTROL() | ModifierType::RELEASE();
    ev.set_modifiers(m);
    assert_eq!(ev.state, 0x4000_0004);
    assert_eq!(ev.modifiers(), m);
    assert_eq!(ev.keycode, 38);
    assert_eq!(ModifierType::from_bits_truncate(0xffff_ffff).bits(), 0x4300_1fff);
}
