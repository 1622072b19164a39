//! A demonstration engine: Japanese (romaji letters become hiragana in a
//! preedit, with a candidate window) and English (letters are committed as
//! typed), switched with Ctrl+Space or from the panel menu.
//!
//! Each handler updates the engine state and returns the requests the engine
//! makes of the IBus daemon, in order; whoever drives the engine sends them.
use vstd::prelude::*;

use crate::component::{Component, ComponentModel, EngineDesc, EngineDescModel, new_engine_desc};
use crate::key::{keysym, KeyEvent, ModifierType, has_flags, MODIFIER_MASK};
use crate::lookup_table::{LookupModel, LookupOrientation, LookupTable};
use crate::prop::{new_prop_model, Prop, PropList, PropModel, PropState, PropType};
use crate::strings::{char_from_u32, decimal, push_decimal, string_pop, string_push, strs_model};
use crate::text::{byte_count, plain_text, str_byte_len, Text};

verus! {

/// The name under which the demonstration engine registers.
pub const ENGINE_NAME: &'static str = "libibus-rs-demo";

/// The input mode of the demonstration engine.
#[derive(Clone, Copy, PartialEq, Eq, Debug, Structural)]
pub enum InputMode {
    /// Letters become hiragana in a preedit.
    Japanese,
    /// Letters are committed as typed.
    English,
}

/// A request that an engine makes of the IBus daemon.
#[derive(Debug)]
pub enum EngineAction {
    /// Commit text to the client.
    CommitText(String),
    /// Update the preedit: text, cursor position, visibility, focus-out mode.
    UpdatePreeditText(String, u32, bool, u32),
    /// Show the preedit.
    ShowPreeditText,
    /// Hide the preedit.
    HidePreeditText,
    /// Update the candidate window and its visibility.
    UpdateLookupTable(LookupTable, bool),
    /// Hide the candidate window.
    HideLookupTable,
    /// Update the auxiliary text and its visibility.
    UpdateAuxiliaryText(String, bool),
    /// Hide the auxiliary text.
    HideAuxiliaryText,
    /// Register the engine's properties with the panel.
    RegisterProperties(PropList),
    /// Delete text around the cursor: offset from the cursor, number of characters.
    DeleteSurroundingText(i32, u32),
    /// Ask the client for the text around the cursor.
    RequireSurroundingText,
}

/// The mathematical content of an [`EngineAction`].
pub enum ActionView {
    CommitText(Seq<char>),
    UpdatePreeditText(Seq<char>, u32, bool, u32),
    ShowPreeditText,
    HidePreeditText,
    UpdateLookupTable(LookupModel, bool),
    HideLookupTable,
    UpdateAuxiliaryText(Seq<char>, bool),
    HideAuxiliaryText,
    RegisterProperties(Seq<PropModel>),
    DeleteSurroundingText(i32, u32),
    RequireSurroundingText,
}

impl View for EngineAction {
    type V = ActionView;

    open spec fn view(&self) -> ActionView {
        match self {
            EngineAction::CommitText(t) => ActionView::CommitText(t@),
            EngineAction::UpdatePreeditText(t, c, v, m) => ActionView::UpdatePreeditText(t@, *c, *v, *m),
            EngineAction::ShowPreeditText => ActionView::ShowPreeditText,
            EngineAction::HidePreeditText => ActionView::HidePreeditText,
            EngineAction::UpdateLookupTable(t, v) => ActionView::UpdateLookupTable(t@, *v),
            EngineAction::HideLookupTable => ActionView::HideLookupTable,
            EngineAction::UpdateAuxiliaryText(t, v) => ActionView::UpdateAuxiliaryText(t@, *v),
            EngineAction::HideAuxiliaryText => ActionView::HideAuxiliaryText,
            EngineAction::RegisterProperties(l) => ActionView::RegisterProperties(l@),
            EngineAction::DeleteSurroundingText(o, n) => ActionView::DeleteSurroundingText(*o, *n),
            EngineAction::RequireSurroundingText => ActionView::RequireSurroundingText,
        }
    }
}

/// The views of a sequence of actions.
pub open spec fn actions_view(s: Seq<EngineAction>) -> Seq<ActionView> {
    s.map_values(|a: EngineAction| a@)
}

/// The demonstration engine's state.
pub struct DemoEngine {
    /// Hiragana typed and not yet committed.
    pub preedit: String,
    /// Whether the auxiliary text is shown.
    pub aux_visible: bool,
    /// The input mode.
    pub mode: InputMode,
    /// A candidate table kept by the engine, if any.
    pub lookup_table: Option<LookupTable>,
}

/// The mathematical content of a [`DemoEngine`].
pub struct DemoModel {
    pub preedit: Seq<char>,
    pub aux_visible: bool,
    pub mode: InputMode,
    pub lookup_table: Option<LookupModel>,
}

impl View for DemoEngine {
    type V = DemoModel;

    open spec fn view(&self) -> DemoModel {
        DemoModel {
            preedit: self.preedit@,
            aux_visible: self.aux_visible,
            mode: self.mode,
            lookup_table: match self.lookup_table {
                Some(t) => Some(t@),
                None => None,
            },
        }
    }
}

/// A fresh engine: Japanese mode, empty preedit, no auxiliary text, no table.
pub open spec fn initial_engine() -> DemoModel {
    DemoModel { preedit: Seq::empty(), aux_visible: false, mode: InputMode::Japanese, lookup_table: None }
}

/// What a handler leaves: the engine, whether the key was consumed, and the
/// requests in order.
pub struct Step {
    pub engine: DemoModel,
    pub handled: bool,
    pub actions: Seq<ActionView>,
}

/// A radio item of the mode menu.
pub open spec fn mode_item(
    key: Seq<char>,
    label: Seq<char>,
    symbol: Seq<char>,
    tooltip: Seq<char>,
    checked: bool,
) -> PropModel {
    PropModel {
        prop_type: 2,
        symbol: plain_text(symbol),
        tooltip: plain_text(tooltip),
        state: if checked { 1 } else { 0 },
        ..new_prop_model(key, label)
    }
}

/// The `mode` menu: a menu-type property whose icon shows the mode, holding
/// a radio item for each mode with the current one checked.
pub open spec fn mode_menu(mode: InputMode) -> PropModel {
    PropModel {
        prop_type: 3,
        icon: if mode == InputMode::Japanese { "ibus-keyboard-jp"@ } else { "ibus-keyboard-us"@ },
        sub_props: seq![
            mode_item("mode_japanese"@, "Japanese"@, "あ"@, "日本語入力モード"@, mode == InputMode::Japanese),
            mode_item("mode_english"@, "English"@, "EN"@, "English input mode"@, mode == InputMode::English),
        ],
        ..new_prop_model("mode"@, "Input Mode"@)
    }
}

/// The properties the engine registers: a visible `setup` item and the mode menu.
pub open spec fn engine_properties(mode: InputMode) -> Seq<PropModel> {
    seq![PropModel { visible: true, ..new_prop_model("setup"@, "Setup"@) }, mode_menu(mode)]
}

/// The other mode.
pub open spec fn toggled(mode: InputMode) -> InputMode {
    if mode == InputMode::Japanese { InputMode::English } else { InputMode::Japanese }
}

/// The preedit update for a preedit: cursor after its last byte, visible,
/// cleared on focus out.
pub open spec fn preedit_update(p: Seq<char>) -> ActionView {
    ActionView::UpdatePreeditText(p, byte_count(p) as u32, true, 0)
}

/// The candidate window shown on Space: five candidates, horizontal.
pub open spec fn candidate_window() -> LookupModel {
    LookupModel {
        candidates: seq![
            plain_text("候補一"@),
            plain_text("候補二"@),
            plain_text("候補三"@),
            plain_text("候補四"@),
            plain_text("候補五"@),
        ],
        orientation: 0,
        ..LookupModel::empty()
    }
}

/// The text committed for the candidate numbered `n` (counting from one).
pub open spec fn candidate_text(n: nat) -> Seq<char> {
    "候補"@ + decimal(n)
}

/// The offset that deletes a preedit before the cursor: the wrapping
/// negation of its byte length taken as a 32-bit number.
pub open spec fn preedit_offset(p: Seq<char>) -> i32 {
    let v = byte_count(p) as i32;
    if v == i32::MIN { v } else { (-v) as i32 }
}

/// The hiragana that a lowercase letter types: あ for `a`, then onwards
/// in code point order.
pub open spec fn hiragana(keyval: u32) -> char {
    let u = (0x3042 + (keyval - keysym::a)) as u32;
    u as char
}

/// A key in Japanese mode.
pub open spec fn japanese_step(m: DemoModel, keyval: u32) -> Step {
    if keyval == keysym::Return || keyval == keysym::KP_Enter {
        if m.preedit.len() > 0 {
            Step {
                engine: DemoModel { preedit: Seq::empty(), ..m },
                handled: true,
                actions: seq![
                    ActionView::CommitText(m.preedit),
                    ActionView::HidePreeditText,
                    ActionView::HideLookupTable,
                ],
            }
        } else {
            Step { engine: m, handled: true, actions: Seq::empty() }
        }
    } else if keyval == keysym::BackSpace {
        if m.preedit.len() > 0 {
            let p = m.preedit.drop_last();
            Step {
                engine: DemoModel { preedit: p, ..m },
                handled: true,
                actions: if p.len() == 0 {
                    seq![ActionView::HidePreeditText]
                } else {
                    seq![preedit_update(p)]
                },
            }
        } else {
            Step { engine: m, handled: true, actions: Seq::empty() }
        }
    } else if keyval == keysym::Escape {
        Step {
            engine: DemoModel { preedit: Seq::empty(), ..m },
            handled: true,
            actions: seq![
                ActionView::HidePreeditText,
                ActionView::HideLookupTable,
                ActionView::HideAuxiliaryText,
            ],
        }
    } else if keyval == keysym::space {
        Step {
            engine: m,
            handled: true,
            actions: if m.preedit.len() > 0 {
                seq![ActionView::UpdateLookupTable(candidate_window(), true)]
            } else {
                Seq::empty()
            },
        }
    } else if keysym::_1 <= keyval <= keysym::_9 {
        let tail = seq![
            ActionView::HideLookupTable,
            ActionView::CommitText(candidate_text((keyval - keysym::_1 + 1) as nat)),
            ActionView::HidePreeditText,
        ];
        if m.preedit.len() > 0 {
            Step {
                engine: DemoModel { preedit: Seq::empty(), ..m },
                handled: true,
                actions: seq![
                    ActionView::DeleteSurroundingText(
                        preedit_offset(m.preedit),
                        byte_count(m.preedit) as u32,
                    ),
                ] + tail,
            }
        } else {
            Step { engine: m, handled: true, actions: tail }
        }
    } else if keyval == keysym::grave {
        let v = !m.aux_visible;
        Step {
            engine: DemoModel { aux_visible: v, ..m },
            handled: true,
            actions: if v {
                seq![ActionView::UpdateAuxiliaryText("変換モード (aux)"@, true)]
            } else {
                seq![ActionView::HideAuxiliaryText]
            },
        }
    } else if keyval == keysym::asciitilde {
        Step { engine: m, handled: true, actions: seq![ActionView::RequireSurroundingText] }
    } else if keysym::a <= keyval <= keysym::z {
        let p = m.preedit.push(hiragana(keyval));
        Step { engine: DemoModel { preedit: p, ..m }, handled: true, actions: seq![preedit_update(p)] }
    } else {
        Step { engine: m, handled: false, actions: Seq::empty() }
    }
}

/// Whether a keysym is an ASCII letter.
pub open spec fn is_letter(keyval: u32) -> bool {
    (keysym::a <= keyval <= keysym::z) || (keysym::A <= keyval <= keysym::Z)
}

/// A key in English mode: a letter is committed as typed.
pub open spec fn english_step(m: DemoModel, keyval: u32) -> Step {
    if is_letter(keyval) {
        Step { engine: m, handled: true, actions: seq![ActionView::CommitText(seq![keyval as char])] }
    } else {
        Step { engine: m, handled: false, actions: Seq::empty() }
    }
}

/// Whether the engine leaves a key to the application: key releases and
/// keys with Control or Alt held.
pub open spec fn ignored_state(state: u32) -> bool {
    let m = state & MODIFIER_MASK;
    has_flags(m, 0x4000_0000) || has_flags(m, 4) || has_flags(m, 8)
}

/// Whether a key event is Ctrl+Space with no other modifier.
pub open spec fn is_mode_switch(ev: KeyEvent) -> bool {
    ev.state & MODIFIER_MASK == 4 && ev.keyval == keysym::space
}

/// The requests after a mode change: hide the preedit and the candidate
/// window, register the properties of the new mode, and show the preedit
/// again in Japanese mode when `show_preedit` is set.
pub open spec fn mode_change_actions(mode: InputMode, show_preedit: bool) -> Seq<ActionView> {
    let a = seq![
        ActionView::HidePreeditText,
        ActionView::HideLookupTable,
        ActionView::RegisterProperties(engine_properties(mode)),
    ];
    if show_preedit && mode == InputMode::Japanese { a.push(ActionView::ShowPreeditText) } else { a }
}

/// A key event: Ctrl+Space switches the mode and clears the preedit; keys
/// the engine ignores are not consumed; other keys go to the current mode.
pub open spec fn key_step(m: DemoModel, ev: KeyEvent) -> Step {
    if is_mode_switch(ev) {
        let mode = toggled(m.mode);
        Step {
            engine: DemoModel { mode, preedit: Seq::empty(), ..m },
            handled: true,
            actions: mode_change_actions(mode, true),
        }
    } else if ignored_state(ev.state) {
        Step { engine: m, handled: false, actions: Seq::empty() }
    } else if m.mode == InputMode::Japanese {
        japanese_step(m, ev.keyval)
    } else {
        english_step(m, ev.keyval)
    }
}

/// Focus gained: show the preedit in Japanese mode, register the properties.
pub open spec fn focus_in_actions(mode: InputMode) -> Seq<ActionView> {
    let a = if mode == InputMode::Japanese { seq![ActionView::ShowPreeditText] } else { Seq::empty() };
    a.push(ActionView::RegisterProperties(engine_properties(mode)))
}

/// A panel property activated: the mode items switch to their mode (and
/// clear the preedit) unless it is current; `info` shows the auxiliary text;
/// anything else changes nothing.
pub open spec fn property_step(m: DemoModel, name: Seq<char>) -> Step {
    if name == "mode_japanese"@ || name == "mode_english"@ {
        let mode = if name == "mode_japanese"@ { InputMode::Japanese } else { InputMode::English };
        if m.mode == mode {
            Step { engine: m, handled: true, actions: Seq::empty() }
        } else {
            Step {
                engine: DemoModel { mode, preedit: Seq::empty(), ..m },
                handled: true,
                actions: mode_change_actions(mode, false),
            }
        }
    } else if name == "info"@ {
        Step {
            engine: DemoModel { aux_visible: true, ..m },
            handled: true,
            actions: seq![
                ActionView::UpdateAuxiliaryText(
                    "libibus-rs demo — https://github.com/orrisroot/libibus-rs"@,
                    true,
                ),
            ],
        }
    } else {
        Step { engine: m, handled: true, actions: Seq::empty() }
    }
}

/// A character is the character of its code point.
proof fn lemma_char_code(c: char, u: u32)
    requires
        c as u32 == u,
    ensures
        c == u as char,
{
}

/// Append a request.
fn push_action(v: &mut Vec<EngineAction>, a: EngineAction)
    ensures
        actions_view(final(v)@) == actions_view(old(v)@).push(a@),
{
    let ghost av = a@;
    v.push(a);
    assert(actions_view(v@) =~= actions_view(old(v)@).push(av));
}

/// Whether the engine leaves a key to the application: key releases and
/// keys with Control or Alt held.
pub fn should_ignore_key(event: &KeyEvent) -> (b: bool)
    ensures
        b == ignored_state(event.state),
{
    event.modifiers().is_release() || event.modifiers().is_control() || event.modifiers().is_alt()
}

/// The text committed for the candidate numbered `n`.
fn candidate_string(n: u32) -> (s: String)
    ensures
        s@ == candidate_text(n as nat),
{
    let mut s = "候補".to_owned();
    push_decimal(&mut s, n);
    s
}

/// The candidate window shown on Space.
pub fn candidate_table() -> (t: LookupTable)
    ensures
        t@ == candidate_window(),
{
    let mut table = LookupTable::new();
    table.append_candidate(Text::new("候補一"));
    table.append_candidate(Text::new("候補二"));
    table.append_candidate(Text::new("候補三"));
    table.append_candidate(Text::new("候補四"));
    table.append_candidate(Text::new("候補五"));
    table.set_orientation(LookupOrientation::Horizontal);
    assert(table@.candidates =~= candidate_window().candidates);
    table
}

impl DemoEngine {
    /// A fresh engine: Japanese mode, empty preedit, no auxiliary text, no table.
    pub fn new() -> (e: DemoEngine)
        ensures
            e@ == initial_engine(),
    {
        DemoEngine { preedit: String::new(), aux_visible: false, mode: InputMode::Japanese, lookup_table: None }
    }

    /// The `mode` menu of the current mode.
    pub fn mode_menu_prop(&self) -> (p: Prop)
        ensures
            p@ == mode_menu(self.mode),
    {
        let mut menu = Prop::new("mode", "Input Mode");
        menu.prop_type = PropType::Menu.to_u32();
        menu.set_icon(
            match self.mode {
                InputMode::Japanese => "ibus-keyboard-jp",
                InputMode::English => "ibus-keyboard-us",
            },
        );
        let mut jp = Prop::radio("mode_japanese", "Japanese");
        jp.set_symbol("あ");
        jp.set_tooltip("日本語入力モード");
        jp.set_state(
            if self.mode == InputMode::Japanese {
                PropState::Checked
            } else {
                PropState::Unchecked
            },
        );
        let mut en = Prop::radio("mode_english", "English");
        en.set_symbol("EN");
        en.set_tooltip("English input mode");
        en.set_state(
            if self.mode == InputMode::English {
                PropState::Checked
            } else {
                PropState::Unchecked
            },
        );
        let mut sub_props = PropList::new();
        sub_props.append(jp);
        sub_props.append(en);
        menu.set_sub_props(sub_props);
        assert(menu@.sub_props =~= mode_menu(self.mode).sub_props);
        menu
    }

    /// The properties the engine registers in its current mode.
    pub fn engine_properties(&self) -> (l: PropList)
        ensures
            l@ == engine_properties(self.mode),
    {
        let mut props = PropList::new();
        let mut setup = Prop::new("setup", "Setup");
        setup.set_visible(true);
        props.append(setup);
        props.append(self.mode_menu_prop());
        assert(props@ =~= engine_properties(self.mode));
        props
    }

    /// The preedit update for the current preedit.
    fn preedit_action(&self) -> (a: EngineAction)
        ensures
            a@ == preedit_update(self.preedit@),
    {
        let n = str_byte_len(self.preedit.as_str());
        EngineAction::UpdatePreeditText(self.preedit.clone(), n as u32, true, 0)
    }

    /// A key in Japanese mode.
    pub fn process_japanese(&mut self, event: &KeyEvent) -> (r: (bool, Vec<EngineAction>))
        ensures
            japanese_step(old(self)@, event.keyval) == (Step {
                engine: final(self)@,
                handled: r.0,
                actions: actions_view(r.1@),
            }),
    {
        let k = event.keyval;
        let mut actions: Vec<EngineAction> = Vec::new();
        proof {
            assert(actions_view(actions@) =~= Seq::<ActionView>::empty());
        }
        if k == keysym::Return || k == keysym::KP_Enter {
            if !self.preedit.as_str().is_empty() {
                let mut text = String::new();
                std::mem::swap(&mut text, &mut self.preedit);
                push_action(&mut actions, EngineAction::CommitText(text));
                push_action(&mut actions, EngineAction::HidePreeditText);
                push_action(&mut actions, EngineAction::HideLookupTable);
            }
            assert(actions_view(actions@) =~= japanese_step(old(self)@, k).actions);
        } else if k == keysym::BackSpace {
            if string_pop(&mut self.preedit).is_some() {
                if self.preedit.as_str().is_empty() {
                    push_action(&mut actions, EngineAction::HidePreeditText);
                } else {
                    let a = self.preedit_action();
                    push_action(&mut actions, a);
                }
            }
            assert(actions_view(actions@) =~= japanese_step(old(self)@, k).actions);
        } else if k == keysym::Escape {
            self.preedit = String::new();
            push_action(&mut actions, EngineAction::HidePreeditText);
            push_action(&mut actions, EngineAction::HideLookupTable);
            push_action(&mut actions, EngineAction::HideAuxiliaryText);
            assert(actions_view(actions@) =~= japanese_step(old(self)@, k).actions);
        } else if k == keysym::space {
            if !self.preedit.as_str().is_empty() {
                push_action(&mut actions, EngineAction::UpdateLookupTable(candidate_table(), true));
            }
            assert(actions_view(actions@) =~= japanese_step(old(self)@, k).actions);
        } else if keysym::_1 <= k && k <= keysym::_9 {
            let idx = k - keysym::_1;
            if !self.preedit.as_str().is_empty() {
                let n = str_byte_len(self.preedit.as_str());
                let v = n as i32;
                let offset: i32 = if v == i32::MIN { v } else { -v };
                push_action(&mut actions, EngineAction::DeleteSurroundingText(offset, n as u32));
                self.preedit = String::new();
            }
            push_action(&mut actions, EngineAction::HideLookupTable);
            push_action(&mut actions, EngineAction::CommitText(candidate_string(idx + 1)));
            push_action(&mut actions, EngineAction::HidePreeditText);
            assert(actions_view(actions@) =~= japanese_step(old(self)@, k).actions);
        } else if k == keysym::grave {
            self.aux_visible = !self.aux_visible;
            if self.aux_visible {
                push_action(
                    &mut actions,
                    EngineAction::UpdateAuxiliaryText("変換モード (aux)".to_owned(), true),
                );
            } else {
                push_action(&mut actions, EngineAction::HideAuxiliaryText);
            }
            assert(actions_view(actions@) =~= japanese_step(old(self)@, k).actions);
        } else if k == keysym::asciitilde {
            push_action(&mut actions, EngineAction::RequireSurroundingText);
            assert(actions_view(actions@) =~= japanese_step(old(self)@, k).actions);
        } else if keysym::a <= k && k <= keysym::z {
            let code = 0x3042 + (k - keysym::a);
            let oc = char_from_u32(code);
            assert(oc is Some);
            let hira = match oc {
                Some(c) => c,
                None => '?',
            };
            proof {
                lemma_char_code(hira, code);
            }
            string_push(&mut self.preedit, hira);
            let a = self.preedit_action();
            push_action(&mut actions, a);
            assert(actions_view(actions@) =~= japanese_step(old(self)@, k).actions);
        } else {
            return (false, actions);
        }
        (true, actions)
    }

    /// A key in English mode: a letter is committed as typed.
    pub fn process_english(&self, event: &KeyEvent) -> (r: (bool, Vec<EngineAction>))
        ensures
            english_step(self@, event.keyval) == (Step {
                engine: self@,
                handled: r.0,
                actions: actions_view(r.1@),
            }),
    {
        let k = event.keyval;
        let mut actions: Vec<EngineAction> = Vec::new();
        proof {
            assert(actions_view(actions@) =~= Seq::<ActionView>::empty());
        }
        if (keysym::a <= k && k <= keysym::z) || (keysym::A <= k && k <= keysym::Z) {
            let oc = char_from_u32(k);
            assert(oc is Some);
            let c = match oc {
                Some(c) => c,
                None => '?',
            };
            proof {
                lemma_char_code(c, k);
            }
            let mut s = String::new();
            string_push(&mut s, c);
            proof {
                assert(s@ =~= seq![k as char]);
            }
            push_action(&mut actions, EngineAction::CommitText(s));
            (true, actions)
        } else {
            (false, actions)
        }
    }

    /// Switch to `mode` and clear the preedit; the requests that follow.
    fn change_mode(&mut self, mode: InputMode, show_preedit: bool) -> (actions: Vec<EngineAction>)
        ensures
            final(self)@ == (DemoModel { mode, preedit: Seq::empty(), ..old(self)@ }),
            actions_view(actions@) == mode_change_actions(mode, show_preedit),
    {
        self.mode = mode;
        self.preedit = String::new();
        let mut actions: Vec<EngineAction> = Vec::new();
        proof {
            assert(actions_view(actions@) =~= Seq::<ActionView>::empty());
        }
        push_action(&mut actions, EngineAction::HidePreeditText);
        push_action(&mut actions, EngineAction::HideLookupTable);
        push_action(&mut actions, EngineAction::RegisterProperties(self.engine_properties()));
        if show_preedit && self.mode == InputMode::Japanese {
            push_action(&mut actions, EngineAction::ShowPreeditText);
        }
        proof {
            assert(actions_view(actions@) =~= mode_change_actions(mode, show_preedit));
        }
        actions
    }

    /// A key event: Ctrl+Space switches the mode; keys the engine ignores
    /// are not consumed; other keys go to the current mode.
    pub fn process_key_event(&mut self, event: &KeyEvent) -> (r: (bool, Vec<EngineAction>))
        ensures
            key_step(old(self)@, *event) == (Step {
                engine: final(self)@,
                handled: r.0,
                actions: actions_view(r.1@),
            }),
    {
        if event.modifiers().bits() == ModifierType::CONTROL().bits() && event.keyval == keysym::space {
            let mode = match self.mode {
                InputMode::Japanese => InputMode::English,
                InputMode::English => InputMode::Japanese,
            };
            let actions = self.change_mode(mode, true);
            return (true, actions);
        }
        if should_ignore_key(event) {
            let none: Vec<EngineAction> = Vec::new();
            assert(actions_view(none@) =~= Seq::<ActionView>::empty());
            return (false, none);
        }
        match self.mode {
            InputMode::Japanese => self.process_japanese(event),
            InputMode::English => self.process_english(event),
        }
    }

    /// Focus gained: show the preedit in Japanese mode, register the properties.
    pub fn focus_in(&self) -> (actions: Vec<EngineAction>)
        ensures
            actions_view(actions@) == focus_in_actions(self.mode),
    {
        let mut actions: Vec<EngineAction> = Vec::new();
        proof {
            assert(actions_view(actions@) =~= Seq::<ActionView>::empty());
        }
        if self.mode == InputMode::Japanese {
            push_action(&mut actions, EngineAction::ShowPreeditText);
        }
        push_action(&mut actions, EngineAction::RegisterProperties(self.engine_properties()));
        proof {
            assert(actions_view(actions@) =~= focus_in_actions(self.mode));
        }
        actions
    }

    /// Focus lost: hide the preedit, the candidate window and the auxiliary text.
    pub fn focus_out(&self) -> (actions: Vec<EngineAction>)
        ensures
            actions_view(actions@) == seq![
                ActionView::HidePreeditText,
                ActionView::HideLookupTable,
                ActionView::HideAuxiliaryText,
            ],
    {
        let mut actions: Vec<EngineAction> = Vec::new();
        proof {
            assert(actions_view(actions@) =~= Seq::<ActionView>::empty());
        }
        push_action(&mut actions, EngineAction::HidePreeditText);
        push_action(&mut actions, EngineAction::HideLookupTable);
        push_action(&mut actions, EngineAction::HideAuxiliaryText);
        actions
    }

    /// Reset: clear the preedit and drop the table; hide the preedit and the
    /// candidate window.
    pub fn reset(&mut self) -> (actions: Vec<EngineAction>)
        ensures
            final(self)@ == (DemoModel { preedit: Seq::empty(), lookup_table: None, ..old(self)@ }),
            actions_view(actions@) == seq![ActionView::HidePreeditText, ActionView::HideLookupTable],
    {
        self.preedit = String::new();
        self.lookup_table = None;
        let mut actions: Vec<EngineAction> = Vec::new();
        proof {
            assert(actions_view(actions@) =~= Seq::<ActionView>::empty());
        }
        push_action(&mut actions, EngineAction::HidePreeditText);
        push_action(&mut actions, EngineAction::HideLookupTable);
        actions
    }

    /// A panel property activated (its state is not used).
    pub fn property_activate(&mut self, prop_name: &str, prop_state: u32) -> (actions: Vec<EngineAction>)
        ensures
            property_step(old(self)@, prop_name@) == (Step {
                engine: final(self)@,
                handled: true,
                actions: actions_view(actions@),
            }),
    {
        let name = prop_name.to_owned();
        let japanese = "mode_japanese".to_owned();
        let english = "mode_english".to_owned();
        let info = "info".to_owned();
        let mut actions: Vec<EngineAction> = Vec::new();
        proof {
            assert(actions_view(actions@) =~= Seq::<ActionView>::empty());
        }
        if name == japanese || name == english {
            let mode = if name == japanese { InputMode::Japanese } else { InputMode::English };
            if self.mode == mode {
                return actions;
            }
            self.change_mode(mode, false)
        } else if name == info {
            self.aux_visible = true;
            push_action(
                &mut actions,
                EngineAction::UpdateAuxiliaryText(
                    "libibus-rs demo — https://github.com/orrisroot/libibus-rs".to_owned(),
                    true,
                ),
            );
            actions
        } else {
            actions
        }
    }

    /// A candidate clicked in the panel: clear the preedit and commit the
    /// candidate numbered `index + 1`; hide the candidate window and the preedit.
    pub fn candidate_clicked(&mut self, index: u32, button: u32, state: u32) -> (actions: Vec<EngineAction>)
        requires
            index < u32::MAX,
        ensures
            final(self)@ == (DemoModel { preedit: Seq::empty(), ..old(self)@ }),
            actions_view(actions@) == seq![
                ActionView::CommitText(candidate_text(index as nat + 1)),
                ActionView::HideLookupTable,
                ActionView::HidePreeditText,
            ],
    {
        self.preedit = String::new();
        let mut actions: Vec<EngineAction> = Vec::new();
        proof {
            assert(actions_view(actions@) =~= Seq::<ActionView>::empty());
        }
        push_action(&mut actions, EngineAction::CommitText(candidate_string(index + 1)));
        push_action(&mut actions, EngineAction::HideLookupTable);
        push_action(&mut actions, EngineAction::HidePreeditText);
        actions
    }

    /// The engine is destroyed: clear the preedit and drop the table.
    pub fn destroy(&mut self)
        ensures
            final(self)@ == (DemoModel { preedit: Seq::empty(), lookup_table: None, ..old(self)@ }),
    {
        self.preedit = String::new();
        self.lookup_table = None;
    }
}

impl Default for DemoEngine {
    /// Same as [`DemoEngine::new`].
    fn default() -> (e: DemoEngine)
        ensures
            e@ == initial_engine(),
    {
        DemoEngine::new()
    }
}

/// The factory of demonstration engines.
pub struct DemoFactory;

impl DemoFactory {
    /// A fresh engine, whatever engine name is asked for.
    pub fn create_engine(&mut self, engine_name: &str) -> (e: DemoEngine)
        ensures
            e@ == initial_engine(),
    {
        DemoEngine::new()
    }
}

/// The first author of a `:`-separated author list.
pub open spec fn first_author_of(authors: Seq<char>) -> Seq<char>
    decreases authors.len(),
{
    if authors.len() == 0 || authors[0] == ':' {
        Seq::empty()
    } else {
        seq![authors[0]] + first_author_of(authors.drop_first())
    }
}

/// The first author of a `:`-separated author list.
pub fn pkg_authors(authors: &str) -> (r: String)
    ensures
        r@ == first_author_of(authors@),
{
    let n = authors.unicode_len();
    let mut i: usize = 0;
    let mut r = String::new();
    proof {
        assert(authors@.skip(0) =~= authors@);
        assert(r@ =~= Seq::<char>::empty());
    }
    while i < n && authors.get_char(i) != ':'
        invariant
            i <= n,
            n == authors@.len(),
            first_author_of(authors@) == r@ + first_author_of(authors@.skip(i as int)),
        decreases n - i,
    {
        let c = authors.get_char(i);
        proof {
            assert(authors@.skip(i as int).drop_first() =~= authors@.skip(i as int + 1));
            assert(r@.push(c) + first_author_of(authors@.skip(i as int + 1)) =~= r@ + (seq![c]
                + first_author_of(authors@.skip(i as int + 1))));
        }
        string_push(&mut r, c);
        i = i + 1;
    }
    proof {
        assert(r@ + Seq::<char>::empty() =~= r@);
    }
    r
}

/// The component of the demonstration engine, started as `exec_path
/// --ibus`, from the package's description, version, license, authors and
/// homepage; the first of the `:`-separated authors is named.
pub open spec fn demo_component(
    exec_path: Seq<char>,
    description: Seq<char>,
    version: Seq<char>,
    license: Seq<char>,
    authors: Seq<char>,
    homepage: Seq<char>,
) -> ComponentModel {
    ComponentModel {
        name: "com.github.orrisroot.libibus-rs.Demo"@,
        description,
        version,
        license,
        author: first_author_of(authors),
        homepage,
        text_domain: Seq::empty(),
        exec_path,
        exec_args: seq!["--ibus"@],
        engines: seq![
            EngineDescModel {
                license,
                author: first_author_of(authors),
                symbol: "あ"@,
                ..new_engine_desc(
                    ENGINE_NAME@,
                    "libibus-rs Demo"@,
                    "Demonstration engine for libibus-rs (Japanese/English input)"@,
                    "ja"@,
                )
            },
        ],
        watch_paths: Seq::empty(),
    }
}

/// The component of the demonstration engine.
pub fn build_component(
    exec_path: &str,
    description: &str,
    version: &str,
    license: &str,
    authors: &str,
    homepage: &str,
) -> (c: Component)
    ensures
        c@ == demo_component(exec_path@, description@, version@, license@, authors@, homepage@),
{
    let author = pkg_authors(authors);
    let mut component = Component::new(
        "com.github.orrisroot.libibus-rs.Demo",
        description,
        version,
        license,
        author.as_str(),
        homepage,
        exec_path,
    );
    let args = vec!["--ibus"];
    assert(args@ =~= seq!["--ibus"]);
    component.set_exec_args(args);
    let mut engine_desc = EngineDesc::new(
        ENGINE_NAME,
        "libibus-rs Demo",
        "Demonstration engine for libibus-rs (Japanese/English input)",
        "ja",
    );
    engine_desc.set_license(license).set_author(author.as_str()).set_symbol("あ");
    component.add_engine(engine_desc);
    proof {
        assert(strs_model(seq!["--ibus"]) =~= seq!["--ibus"@]);
        assert(component@.engines =~= demo_component(exec_path@, description@, version@, license@, authors@, homepage@).engines);
    }
    component
}

/// Two Ctrl+Space presses give back the mode the engine was in, with the
/// preedit cleared.
pub proof fn law_mode_switch_twice(m: DemoModel, ev: KeyEvent)
    requires
        is_mode_switch(ev),
    ensures
        key_step(key_step(m, ev).engine, ev).engine == (DemoModel { preedit: Seq::empty(), ..m }),
        key_step(m, ev).handled,
{
}

/// In Japanese mode, BackSpace after a typed letter gives back the engine as
/// it was before the letter.
pub proof fn law_backspace_undoes_letter(m: DemoModel, letter: KeyEvent, backspace: KeyEvent)
    requires
        m.mode == InputMode::Japanese,
        keysym::a <= letter.keyval <= keysym::z,
        !ignored_state(letter.state),
        backspace.keyval == keysym::BackSpace,
        !ignored_state(backspace.state),
    ensures
        key_step(key_step(m, letter).engine, backspace).engine == m,
{
    let p = m.preedit.push(hiragana(letter.keyval));
    assert(p.drop_last() =~= m.preedit);
}

/// Key releases and keys with Control or Alt held, other than Ctrl+Space,
/// leave the engine as it is, are not consumed and ask nothing.
pub proof fn law_ignored_keys_change_nothing(m: DemoModel, ev: KeyEvent)
    requires
        ignored_state(ev.state),
        !is_mode_switch(ev),
    ensures
        key_step(m, ev) == (Step { engine: m, handled: false, actions: Seq::empty() }),
{
}

/// A key release is never consumed, changes nothing and asks nothing,
/// whatever the key and the modifiers held (the release of Ctrl+Space
/// included).
pub proof fn law_release_changes_nothing(m: DemoModel, ev: KeyEvent)
    requires
        ev.state & 0x4000_0000 == 0x4000_0000,
    ensures
        key_step(m, ev) == (Step { engine: m, handled: false, actions: Seq::empty() }),
{
    let s = ev.state;
    assert((s & MODIFIER_MASK) != 4 && (s & MODIFIER_MASK) & 0x4000_0000 == 0x4000_0000) by (bit_vector)
        requires
            s & 0x4000_0000 == 0x4000_0000,
    ;
}

/// The mode changes only on a Ctrl+Space press with no other modifier, and
/// such a press always switches it, is consumed and clears the preedit.
pub proof fn law_mode_changes_only_on_ctrl_space(m: DemoModel, ev: KeyEvent)
    ensures
        key_step(m, ev).engine.mode != m.mode ==> ev.keyval == keysym::space && ev.state & MODIFIER_MASK == 4,
        ev.keyval == keysym::space && ev.state & MODIFIER_MASK == 4 ==> {
            &&& key_step(m, ev).engine.mode != m.mode
            &&& key_step(m, ev).handled
            &&& key_step(m, ev).engine.preedit.len() == 0
        },
{
}

/// In English mode no key but Ctrl+Space changes the engine.
pub proof fn law_english_mode_keeps_state(m: DemoModel, ev: KeyEvent)
    requires
        m.mode == InputMode::English,
        !is_mode_switch(ev),
    ensures
        key_step(m, ev).engine == m,
{
}

/// Activating the menu item of the current mode changes nothing and asks nothing.
pub proof fn law_current_mode_item_changes_nothing(m: DemoModel)
    ensures
        property_step(m, if m.mode == InputMode::Japanese { "mode_japanese"@ } else { "mode_english"@ })
            == (Step { engine: m, handled: true, actions: Seq::empty() }),
{
    reveal_strlit("mode_japanese");
    reveal_strlit("mode_english");
    assert("mode_japanese"@ != "mode_english"@) by {
        assert("mode_japanese"@.len() != "mode_english"@.len());
    }
}

} // verus!
