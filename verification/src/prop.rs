use vstd::prelude::*;

use crate::error::Error;
use crate::gvalue::{
    envelope_failure,
    gheight, gheights, lemma_gheight_payload, lemma_gheight_strip, lemma_gheights_elem,
    lemma_gheights_subrange, lemma_items_model, lemma_models_push, make_array, make_struct,
    make_variant, models_of, unvariant, unvariant_ref, unwrap_model, unwrap_serializable,
    variant_of, wrap_model, wrap_serializable, GModel, GValue, Outcome, Unwrapped,
};
use crate::text::{
    decode_text, encode_text, law_text_roundtrip, plain_text, with_end_cursor, Text, TextModel,
};

verus! {

broadcast use vstd::std_specs::vec::axiom_vec_index_decreases;

/// Visual type of an IBus property, numbered from zero in declaration order.
#[derive(Debug, Clone, Copy, PartialEq, Eq, Structural)]
pub enum PropType {
    /// Normal push-button property.
    Normal,
    /// Toggle (checkable) property.
    Toggle,
    /// Radio-button property.
    Radio,
    /// Sub-menu property.
    Menu,
    /// Visual separator.
    Separator,
}

/// The protocol number of a property type.
pub open spec fn prop_type_code(t: PropType) -> u32 {
    match t {
        PropType::Normal => 0,
        PropType::Toggle => 1,
        PropType::Radio => 2,
        PropType::Menu => 3,
        PropType::Separator => 4,
    }
}

impl PropType {
    /// The protocol number of this type.
    pub fn to_u32(self) -> (r: u32)
        ensures
            r == prop_type_code(self),
    {
        match self {
            PropType::Normal => 0,
            PropType::Toggle => 1,
            PropType::Radio => 2,
            PropType::Menu => 3,
            PropType::Separator => 4,
        }
    }

    /// The type numbered `v`, or `None` for unknown numbers.
    pub fn from_u32(v: u32) -> (r: Option<PropType>)
        ensures
            r is Some <==> v < 5,
            r matches Some(t) ==> prop_type_code(t) == v,
    {
        match v {
            0 => Some(PropType::Normal),
            1 => Some(PropType::Toggle),
            2 => Some(PropType::Radio),
            3 => Some(PropType::Menu),
            4 => Some(PropType::Separator),
            _ => None,
        }
    }

    /// The type numbered `v`, normal when `v` names none.
    pub fn from_u32_or_normal(v: u32) -> (r: PropType)
        ensures
            v < 5 ==> prop_type_code(r) == v,
            v >= 5 ==> r == PropType::Normal,
    {
        match Self::from_u32(v) {
            Some(t) => t,
            None => PropType::Normal,
        }
    }
}

/// Check state for toggle/radio properties, numbered from zero in declaration order.
#[derive(Debug, Clone, Copy, PartialEq, Eq, Structural)]
pub enum PropState {
    /// Unchecked state.
    Unchecked,
    /// Checked state.
    Checked,
    /// Inconsistent (mixed) state.
    Inconsistent,
}

/// The protocol number of a check state.
pub open spec fn prop_state_code(s: PropState) -> u32 {
    match s {
        PropState::Unchecked => 0,
        PropState::Checked => 1,
        PropState::Inconsistent => 2,
    }
}

impl PropState {
    /// The protocol number of this state.
    pub fn to_u32(self) -> (r: u32)
        ensures
            r == prop_state_code(self),
    {
        match self {
            PropState::Unchecked => 0,
            PropState::Checked => 1,
            PropState::Inconsistent => 2,
        }
    }

    /// The state numbered `v`, or `None` for unknown numbers.
    pub fn from_u32(v: u32) -> (r: Option<PropState>)
        ensures
            r is Some <==> v < 3,
            r matches Some(s) ==> prop_state_code(s) == v,
    {
        match v {
            0 => Some(PropState::Unchecked),
            1 => Some(PropState::Checked),
            2 => Some(PropState::Inconsistent),
            _ => None,
        }
    }

    /// The state numbered `v`, unchecked when `v` names none.
    pub fn from_u32_or_unchecked(v: u32) -> (r: PropState)
        ensures
            v < 3 ==> prop_state_code(r) == v,
            v >= 3 ==> r == PropState::Unchecked,
    {
        match Self::from_u32(v) {
            Some(s) => s,
            None => PropState::Unchecked,
        }
    }
}

/// A single item in an IBus engine's property (menu) panel.
#[derive(Debug)]
pub struct Prop {
    /// Unique key for identifying this property.
    pub key: String,
    /// Visual type (see [`PropType`]).
    pub prop_type: u32,
    /// Display label.
    pub label: Text,
    /// Icon name.
    pub icon: String,
    /// Tooltip text.
    pub tooltip: Text,
    /// Whether the property is sensitive (interactive).
    pub sensitive: bool,
    /// Whether the property is visible.
    pub visible: bool,
    /// Check state (see [`PropState`]).
    pub state: u32,
    /// Sub-properties (for menu-type properties).
    pub sub_props: Box<PropList>,
    /// Symbol text of the property.
    pub symbol: Text,
}

/// A list of [`Prop`] items.
#[derive(Debug)]
pub struct PropList {
    /// The contained properties.
    pub props: Vec<Prop>,
}

/// The mathematical content of a [`Prop`].
pub struct PropModel {
    pub key: Seq<char>,
    pub prop_type: u32,
    pub label: TextModel,
    pub icon: Seq<char>,
    pub tooltip: TextModel,
    pub sensitive: bool,
    pub visible: bool,
    pub state: u32,
    pub sub_props: Seq<PropModel>,
    pub symbol: TextModel,
}

/// The model of a property.
pub open spec fn prop_model(p: &Prop) -> PropModel
    decreases p, 0int,
{
    PropModel {
        key: p.key@,
        prop_type: p.prop_type,
        label: p.label@,
        icon: p.icon@,
        tooltip: p.tooltip@,
        sensitive: p.sensitive,
        visible: p.visible,
        state: p.state,
        sub_props: prop_models(&p.sub_props.props, p.sub_props.props.len() as int),
        symbol: p.symbol@,
    }
}

/// The models of the first `n` properties of a vector.
pub open spec fn prop_models(v: &Vec<Prop>, n: int) -> Seq<PropModel>
    decreases v, n,
{
    if n <= 0 || n > v.len() {
        Seq::empty()
    } else {
        prop_models(v, n - 1).push(prop_model(&v[n - 1]))
    }
}

/// The models of all properties of a vector.
pub open spec fn props_model(v: Seq<Prop>) -> Seq<PropModel> {
    v.map_values(|p: Prop| prop_model(&p))
}

/// `prop_models` is the element-wise model of the whole vector.
pub proof fn lemma_prop_models(v: &Vec<Prop>, n: int)
    requires
        0 <= n <= v.len(),
    ensures
        prop_models(v, n) == props_model(v@.subrange(0, n)),
    decreases n,
{
    if n > 0 {
        lemma_prop_models(v, n - 1);
        assert(props_model(v@.subrange(0, n)) =~= props_model(v@.subrange(0, n - 1)).push(prop_model(&v@[n - 1])));
    } else {
        assert(props_model(v@.subrange(0, 0)) =~= Seq::<PropModel>::empty());
    }
}

impl View for Prop {
    type V = PropModel;

    open spec fn view(&self) -> PropModel {
        prop_model(self)
    }
}

impl View for PropList {
    type V = Seq<PropModel>;

    open spec fn view(&self) -> Seq<PropModel> {
        props_model(self.props@)
    }
}

/// The sub-property models of a property are the model of its sub-property list.
pub proof fn lemma_sub_props_model(p: &Prop)
    ensures
        p@.sub_props == p.sub_props@,
{
    lemma_prop_models(&p.sub_props.props, p.sub_props.props.len() as int);
    assert(p.sub_props.props@.subrange(0, p.sub_props.props@.len() as int) =~= p.sub_props.props@);
}

/// A property as `Prop::new` builds it.
pub open spec fn new_prop_model(key: Seq<char>, label: Seq<char>) -> PropModel {
    PropModel {
        key,
        prop_type: 0,
        label: plain_text(label),
        icon: Seq::empty(),
        tooltip: plain_text(Seq::empty()),
        sensitive: true,
        visible: true,
        state: 0,
        sub_props: Seq::empty(),
        symbol: plain_text(Seq::empty()),
    }
}

/// The first property with the given key, searching each property before
/// its sub-properties and sub-properties before later siblings.
pub open spec fn find_prop(s: Seq<PropModel>, key: Seq<char>) -> Option<PropModel>
    decreases s,
{
    if s.len() == 0 {
        None
    } else if s[0].key == key {
        Some(s[0])
    } else {
        let inner = if s[0].sub_props.len() > 0 {
            find_prop(s[0].sub_props, key)
        } else {
            None
        };
        match inner {
            Some(p) => Some(p),
            None => find_prop(s.drop_first(), key),
        }
    }
}

/// A property with the state, label, icon, tooltip, sensitivity and
/// visibility of `u`.
pub open spec fn apply_update(p: PropModel, u: PropModel) -> PropModel {
    PropModel {
        state: u.state,
        label: u.label,
        icon: u.icon,
        tooltip: u.tooltip,
        sensitive: u.sensitive,
        visible: u.visible,
        ..p
    }
}

/// The list after an update with `u`: walking the list in order, the first
/// property whose key is `u`'s key is updated and the walk stops; every
/// property passed before it has its sub-properties updated the same way.
pub open spec fn update_props(s: Seq<PropModel>, u: PropModel) -> Seq<PropModel>
    decreases s,
{
    if s.len() == 0 {
        s
    } else if s[0].key == u.key {
        s.update(0, apply_update(s[0], u))
    } else {
        let first = if s[0].sub_props.len() > 0 {
            PropModel { sub_props: update_props(s[0].sub_props, u), ..s[0] }
        } else {
            s[0]
        };
        seq![first] + update_props(s.drop_first(), u)
    }
}

/// The wire encoding of a property:
/// `("IBusProperty", {}, key, type, <label>, icon, <tooltip>, sensitive,
/// visible, state, <sub-properties>, <symbol>)`.
pub open spec fn encode_prop(m: PropModel) -> GModel
    decreases m, 0int,
{
    wrap_model(
        "IBusProperty"@,
        GModel::Struct(
            seq![
                GModel::Str(m.key),
                GModel::U32(m.prop_type),
                variant_of(encode_text(m.label)),
                GModel::Str(m.icon),
                variant_of(encode_text(m.tooltip)),
                GModel::Bool(m.sensitive),
                GModel::Bool(m.visible),
                GModel::U32(m.state),
                variant_of(encode_props(m.sub_props)),
                variant_of(encode_text(m.symbol)),
            ],
        ),
    )
}

/// The wire encoding of a property list: `("IBusPropList", {}, [<prop>, ...])`.
pub open spec fn encode_props(s: Seq<PropModel>) -> GModel
    decreases s, 1int,
{
    wrap_model("IBusPropList"@, GModel::Array(encode_prop_elems(s)))
}

/// The array elements of an encoded property list: variants holding the properties.
pub open spec fn encode_prop_elems(s: Seq<PropModel>) -> Seq<GModel>
    decreases s, 0int,
{
    if s.len() == 0 {
        Seq::empty()
    } else {
        encode_prop_elems(s.drop_last()).push(variant_of(encode_prop(s.last())))
    }
}

/// Decoding a property: an `IBusProperty` envelope whose payload has at
/// least nine fields, read in order (key, type, label, icon, tooltip,
/// sensitive, visible, state, sub-properties), and an optional tenth field,
/// the symbol (empty text when absent).
pub open spec fn decode_prop(g: GModel) -> Outcome<PropModel>
    decreases gheight(g), 0int,
{
    match unwrap_model(g, "IBusProperty"@) {
        Unwrapped::Payload(p) => match p {
            GModel::Struct(f) => if f.len() < 9 {
                Outcome::Fail("Invalid IBusProperty inner structure"@)
            } else if !(f[0] is Str) {
                Outcome::Fail("Invalid key: incorrect type"@)
            } else if !(f[1] is U32) {
                Outcome::Fail("Invalid prop_type: incorrect type"@)
            } else {
                match decode_text(unvariant(f[2])) {
                    Outcome::Done(label) => if !(f[3] is Str) {
                        Outcome::Fail("Invalid icon: incorrect type"@)
                    } else {
                        match decode_text(unvariant(f[4])) {
                            Outcome::Done(tooltip) => if !(f[5] is Bool) {
                                Outcome::Fail("Invalid sensitive: incorrect type"@)
                            } else if !(f[6] is Bool) {
                                Outcome::Fail("Invalid visible: incorrect type"@)
                            } else if !(f[7] is U32) {
                                Outcome::Fail("Invalid state: incorrect type"@)
                            } else {
                                proof {
                                    lemma_gheight_payload(g, "IBusProperty"@);
                                    lemma_gheight_strip(f[8]);
                                }
                                match decode_proplist(unvariant(f[8])) {
                                    Outcome::Done(subs) => {
                                        let sym = if f.len() >= 10 {
                                            decode_text(unvariant(f[9]))
                                        } else {
                                            Outcome::Done(plain_text(Seq::empty()))
                                        };
                                        match sym {
                                            Outcome::Done(symbol) => Outcome::Done(
                                                PropModel {
                                                    key: f[0]->Str_0,
                                                    prop_type: f[1]->U32_0,
                                                    label,
                                                    icon: f[3]->Str_0,
                                                    tooltip,
                                                    sensitive: f[5]->Bool_0,
                                                    visible: f[6]->Bool_0,
                                                    state: f[7]->U32_0,
                                                    sub_props: subs,
                                                    symbol,
                                                },
                                            ),
                                            Outcome::Fail(m) => Outcome::Fail(m),
                                            Outcome::Abort => Outcome::Abort,
                                        }
                                    },
                                    Outcome::Fail(m) => Outcome::Fail(m),
                                    Outcome::Abort => Outcome::Abort,
                                }
                            },
                            Outcome::Fail(m) => Outcome::Fail(m),
                            Outcome::Abort => Outcome::Abort,
                        }
                    },
                    Outcome::Fail(m) => Outcome::Fail(m),
                    Outcome::Abort => Outcome::Abort,
                }
            },
            _ => Outcome::Fail("Invalid IBusProperty inner structure"@),
        },
        u => envelope_failure(u, "IBusProperty"@),
    }
}

/// Decoding a property list: an `IBusPropList` envelope around an array of properties.
pub open spec fn decode_proplist(g: GModel) -> Outcome<Seq<PropModel>>
    decreases gheight(g), 0int,
{
    match unwrap_model(g, "IBusPropList"@) {
        Unwrapped::Payload(p) => match p {
            GModel::Array(items) => {
                proof {
                    lemma_gheight_payload(g, "IBusPropList"@);
                }
                decode_prop_seq(items)
            },
            _ => Outcome::Fail("Invalid IBusPropList inner structure"@),
        },
        u => envelope_failure(u, "IBusPropList"@),
    }
}

/// Decoding the elements of a property list in order; the first element
/// that does not decode decides the outcome.
pub open spec fn decode_prop_seq(items: Seq<GModel>) -> Outcome<Seq<PropModel>>
    decreases gheights(items), items.len(),
{
    if items.len() == 0 {
        Outcome::Done(Seq::empty())
    } else {
        proof {
            lemma_gheights_subrange(items, 0, items.len() - 1);
            lemma_gheights_elem(items, items.len() - 1);
        }
        match decode_prop_seq(items.drop_last()) {
            Outcome::Done(prefix) => match decode_prop(items.last()) {
                Outcome::Done(x) => Outcome::Done(prefix.push(x)),
                Outcome::Fail(m) => Outcome::Fail(m),
                Outcome::Abort => Outcome::Abort,
            },
            Outcome::Fail(m) => Outcome::Fail(m),
            Outcome::Abort => Outcome::Abort,
        }
    }
}

/// Once a prefix of a property sequence fails to decode, the whole sequence
/// decodes to the same outcome.
pub proof fn lemma_decode_prop_seq_prefix(items: Seq<GModel>, i: int)
    requires
        0 <= i <= items.len(),
        !(decode_prop_seq(items.subrange(0, i)) is Done),
    ensures
        decode_prop_seq(items) == decode_prop_seq(items.subrange(0, i)),
    decreases items.len() - i,
{
    if i < items.len() {
        assert(items.drop_last().subrange(0, i) =~= items.subrange(0, i));
        lemma_decode_prop_seq_prefix(items.drop_last(), i);
    } else {
        assert(items.subrange(0, i) =~= items);
    }
}

/// The property with every text's cursor after its last byte, as decoding
/// leaves it.
pub open spec fn normalize_prop(m: PropModel) -> PropModel
    decreases m, 1int,
{
    PropModel {
        label: with_end_cursor(m.label),
        tooltip: with_end_cursor(m.tooltip),
        symbol: with_end_cursor(m.symbol),
        sub_props: normalize_props(m.sub_props),
        ..m
    }
}

/// The properties with every text's cursor after its last byte.
pub open spec fn normalize_props(s: Seq<PropModel>) -> Seq<PropModel>
    decreases s, 0int,
{
    if s.len() == 0 {
        Seq::empty()
    } else {
        normalize_props(s.drop_last()).push(normalize_prop(s.last()))
    }
}

/// The wire layout of a property: the class name, an empty attachment
/// dictionary, then the key, the type, the label, the icon, the tooltip,
/// the sensitivity, the visibility, the state, the sub-properties and the
/// symbol, in that order.
pub proof fn law_prop_wire_layout(m: PropModel)
    ensures
        encode_prop(m) == GModel::Struct(
            seq![
                GModel::Str("IBusProperty"@),
                GModel::Dict(Seq::empty()),
                GModel::Str(m.key),
                GModel::U32(m.prop_type),
                variant_of(encode_text(m.label)),
                GModel::Str(m.icon),
                variant_of(encode_text(m.tooltip)),
                GModel::Bool(m.sensitive),
                GModel::Bool(m.visible),
                GModel::U32(m.state),
                variant_of(encode_props(m.sub_props)),
                variant_of(encode_text(m.symbol)),
            ],
        ),
{
    let head = seq![GModel::Str("IBusProperty"@), GModel::Dict(Seq::empty())];
    let f = seq![
        GModel::Str(m.key),
        GModel::U32(m.prop_type),
        variant_of(encode_text(m.label)),
        GModel::Str(m.icon),
        variant_of(encode_text(m.tooltip)),
        GModel::Bool(m.sensitive),
        GModel::Bool(m.visible),
        GModel::U32(m.state),
        variant_of(encode_props(m.sub_props)),
        variant_of(encode_text(m.symbol)),
    ];
    assert(head + f =~= seq![
        GModel::Str("IBusProperty"@),
        GModel::Dict(Seq::empty()),
        GModel::Str(m.key),
        GModel::U32(m.prop_type),
        variant_of(encode_text(m.label)),
        GModel::Str(m.icon),
        variant_of(encode_text(m.tooltip)),
        GModel::Bool(m.sensitive),
        GModel::Bool(m.visible),
        GModel::U32(m.state),
        variant_of(encode_props(m.sub_props)),
        variant_of(encode_text(m.symbol)),
    ]);
}

/// Decoding an encoded property gives it back, its texts' cursors moved
/// after their last byte.
pub proof fn law_prop_roundtrip(m: PropModel)
    ensures
        decode_prop(encode_prop(m)) == Outcome::Done(normalize_prop(m)),
    decreases m, 2int,
{
    law_text_roundtrip(m.label);
    law_text_roundtrip(m.tooltip);
    law_text_roundtrip(m.symbol);
    law_props_roundtrip(m.sub_props);
    let f = seq![
        GModel::Str(m.key),
        GModel::U32(m.prop_type),
        variant_of(encode_text(m.label)),
        GModel::Str(m.icon),
        variant_of(encode_text(m.tooltip)),
        GModel::Bool(m.sensitive),
        GModel::Bool(m.visible),
        GModel::U32(m.state),
        variant_of(encode_props(m.sub_props)),
        variant_of(encode_text(m.symbol)),
    ];
    let head = seq![GModel::Str("IBusProperty"@), GModel::Dict(Seq::empty())];
    assert((head + f).subrange(2, 12) =~= f);
}

/// Decoding an encoded property list gives it back, its texts' cursors
/// moved after their last byte.
pub proof fn law_props_roundtrip(s: Seq<PropModel>)
    ensures
        decode_proplist(encode_props(s)) == Outcome::Done(normalize_props(s)),
    decreases s, 1int,
{
    lemma_prop_elems_roundtrip(s);
    let head = seq![GModel::Str("IBusPropList"@), GModel::Dict(Seq::empty())];
    let whole = head.push(GModel::Array(encode_prop_elems(s)));
    assert(whole[2] == GModel::Array(encode_prop_elems(s)));
}

/// Decoding the encoded elements of a property list gives the properties back.
pub proof fn lemma_prop_elems_roundtrip(s: Seq<PropModel>)
    ensures
        encode_prop_elems(s).len() == s.len(),
        decode_prop_seq(encode_prop_elems(s)) == Outcome::Done(normalize_props(s)),
    decreases s, 0int,
{
    if s.len() > 0 {
        lemma_prop_elems_roundtrip(s.drop_last());
        law_prop_roundtrip(s.last());
        let e = encode_prop_elems(s);
        assert(e.drop_last() =~= encode_prop_elems(s.drop_last()));
        assert(e.last() == variant_of(encode_prop(s.last())));
        assert(unwrap_model(e.last(), "IBusProperty"@) == unwrap_model(encode_prop(s.last()), "IBusProperty"@));
        assert(decode_prop(e.last()) == decode_prop(encode_prop(s.last())));
        assert(decode_prop_seq(e.drop_last()) == Outcome::Done(normalize_props(s.drop_last())));
        assert(normalize_props(s) == normalize_props(s.drop_last()).push(normalize_prop(s.last())));
    }
}

impl Prop {
    /// Create a new normal-type property.
    pub fn new(key: &str, label: &str) -> (p: Prop)
        ensures
            p@ == new_prop_model(key@, label@),
    {
        let p = Prop {
            key: key.to_owned(),
            prop_type: 0,
            label: Text::new(label),
            icon: String::new(),
            tooltip: Text::new(""),
            sensitive: true,
            visible: true,
            state: 0,
            sub_props: Box::new(PropList::new()),
            symbol: Text::new(""),
        };
        proof {
            lemma_sub_props_model(&p);
            reveal_strlit("");
            assert(""@ =~= Seq::<char>::empty());
            assert(p@.sub_props =~= Seq::<PropModel>::empty());
        }
        p
    }

    /// Create a separator.
    pub fn separator() -> (p: Prop)
        ensures
            p@ == (PropModel {
                prop_type: 4,
                sensitive: false,
                ..new_prop_model(Seq::empty(), Seq::empty())
            }),
    {
        let p = Prop {
            key: String::new(),
            prop_type: 4,
            label: Text::new(""),
            icon: String::new(),
            tooltip: Text::new(""),
            sensitive: false,
            visible: true,
            state: 0,
            sub_props: Box::new(PropList::new()),
            symbol: Text::new(""),
        };
        proof {
            lemma_sub_props_model(&p);
            reveal_strlit("");
            assert(""@ =~= Seq::<char>::empty());
            assert(p@.sub_props =~= Seq::<PropModel>::empty());
        }
        p
    }

    /// Create a toggle (checkable) property.
    pub fn toggle(key: &str, label: &str) -> (p: Prop)
        ensures
            p@ == (PropModel { prop_type: 1, ..new_prop_model(key@, label@) }),
    {
        let mut p = Self::new(key, label);
        p.prop_type = 1;
        proof {
            lemma_sub_props_model(&p);
        }
        p
    }

    /// Create a radio property.
    pub fn radio(key: &str, label: &str) -> (p: Prop)
        ensures
            p@ == (PropModel { prop_type: 2, ..new_prop_model(key@, label@) }),
    {
        let mut p = Self::new(key, label);
        p.prop_type = 2;
        proof {
            lemma_sub_props_model(&p);
        }
        p
    }

    /// Set the label.
    pub fn set_label(&mut self, label: &str) -> (r: &mut Self)
        ensures
            r@ == (PropModel { label: plain_text(label@), ..old(self)@ }),
            *final(self) == *final(r),
    {
        self.label = Text::new(label);
        proof {
            lemma_sub_props_model(self);
            lemma_sub_props_model(old(self));
        }
        self
    }

    /// Set the icon name.
    pub fn set_icon(&mut self, icon: &str) -> (r: &mut Self)
        ensures
            r@ == (PropModel { icon: icon@, ..old(self)@ }),
            *final(self) == *final(r),
    {
        self.icon = icon.to_owned();
        proof {
            lemma_sub_props_model(self);
            lemma_sub_props_model(old(self));
        }
        self
    }

    /// Set the tooltip text.
    pub fn set_tooltip(&mut self, tooltip: &str) -> (r: &mut Self)
        ensures
            r@ == (PropModel { tooltip: plain_text(tooltip@), ..old(self)@ }),
            *final(self) == *final(r),
    {
        self.tooltip = Text::new(tooltip);
        proof {
            lemma_sub_props_model(self);
            lemma_sub_props_model(old(self));
        }
        self
    }

    /// Set sensitivity (whether the user can interact with it).
    pub fn set_sensitive(&mut self, sensitive: bool) -> (r: &mut Self)
        ensures
            r@ == (PropModel { sensitive, ..old(self)@ }),
            *final(self) == *final(r),
    {
        self.sensitive = sensitive;
        proof {
            lemma_sub_props_model(self);
            lemma_sub_props_model(old(self));
        }
        self
    }

    /// Set visibility.
    pub fn set_visible(&mut self, visible: bool) -> (r: &mut Self)
        ensures
            r@ == (PropModel { visible, ..old(self)@ }),
            *final(self) == *final(r),
    {
        self.visible = visible;
        proof {
            lemma_sub_props_model(self);
            lemma_sub_props_model(old(self));
        }
        self
    }

    /// Set the check state.
    pub fn set_state(&mut self, state: PropState) -> (r: &mut Self)
        ensures
            r@ == (PropModel { state: prop_state_code(state), ..old(self)@ }),
            *final(self) == *final(r),
    {
        self.state = state.to_u32();
        proof {
            lemma_sub_props_model(self);
            lemma_sub_props_model(old(self));
        }
        self
    }

    /// Set whether the property is checked (state 1) or unchecked (state 0).
    pub fn set_checked(&mut self, checked: bool) -> (r: &mut Self)
        ensures
            r@ == (PropModel { state: if checked { 1u32 } else { 0u32 }, ..old(self)@ }),
            *final(self) == *final(r),
    {
        self.state = if checked { 1 } else { 0 };
        proof {
            lemma_sub_props_model(self);
            lemma_sub_props_model(old(self));
        }
        self
    }

    /// Set the symbol text.
    pub fn set_symbol(&mut self, symbol: &str) -> (r: &mut Self)
        ensures
            r@ == (PropModel { symbol: plain_text(symbol@), ..old(self)@ }),
            *final(self) == *final(r),
    {
        self.symbol = Text::new(symbol);
        proof {
            lemma_sub_props_model(self);
            lemma_sub_props_model(old(self));
        }
        self
    }

    /// Attach sub-properties (for menu-type properties).
    pub fn set_sub_props(&mut self, sub_props: PropList) -> (r: &mut Self)
        ensures
            r@ == (PropModel { sub_props: sub_props@, ..old(self)@ }),
            *final(self) == *final(r),
    {
        self.sub_props = Box::new(sub_props);
        proof {
            lemma_sub_props_model(self);
            lemma_sub_props_model(old(self));
        }
        self
    }

    /// Whether this is a toggle-type property.
    pub fn is_toggle(&self) -> (b: bool)
        ensures
            b == (self@.prop_type == 1),
    {
        self.prop_type == 1
    }

    /// Whether this is a separator.
    pub fn is_separator(&self) -> (b: bool)
        ensures
            b == (self@.prop_type == 4),
    {
        self.prop_type == 4
    }

    /// Whether this property is in the checked state.
    pub fn is_checked(&self) -> (b: bool)
        ensures
            b == (self@.state == 1),
    {
        self.state == 1
    }

    /// Whether this property has sub-properties.
    pub fn has_sub_props(&self) -> (b: bool)
        ensures
            b == (self@.sub_props.len() > 0),
    {
        proof {
            lemma_sub_props_model(self);
        }
        !self.sub_props.is_empty()
    }
}

impl PropList {
    /// Create an empty property list.
    pub fn new() -> (l: PropList)
        ensures
            l@ == Seq::<PropModel>::empty(),
    {
        let l = PropList { props: Vec::new() };
        assert(l@ =~= Seq::<PropModel>::empty());
        l
    }

    /// Append a property.
    pub fn append(&mut self, prop: Prop)
        ensures
            final(self)@ == old(self)@.push(prop@),
    {
        self.props.push(prop);
        assert(self@ =~= old(self)@.push(prop@));
    }

    /// Number of properties in this list (not counting sub-properties).
    pub fn len(&self) -> (n: usize)
        ensures
            n == self@.len(),
    {
        self.props.len()
    }

    /// Whether the list is empty.
    pub fn is_empty(&self) -> (b: bool)
        ensures
            b == (self@.len() == 0),
    {
        self.props.len() == 0
    }

    /// Update properties with `prop`'s state, label, icon, tooltip,
    /// sensitivity and visibility (see [`update_props`]).
    pub fn update_property(&mut self, prop: &Prop)
        ensures
            final(self)@ == update_props(old(self)@, prop@),
        decreases *old(self),
    {
        let ghost old_list = old(self)@;
        let ghost n = old(self).props@.len() as int;
        let mut i: usize = 0;
        proof {
            assert(old_list.subrange(0, n) =~= old_list);
            assert(self@.subrange(0, 0) + update_props(old_list.subrange(0, n), prop@) =~= update_props(old_list, prop@));
        }
        while i < self.props.len()
            invariant
                n == old(self).props@.len(),
                self.props@.len() == n,
                i <= n,
                old_list == old(self)@,
                forall|j: int| i <= j < n ==> self.props@[j] == old(self).props@[j],
                self@.subrange(0, i as int) + update_props(old_list.subrange(i as int, n), prop@)
                    == update_props(old_list, prop@),
            decreases n - i,
        {
            let ghost rest = old_list.subrange(i as int, n);
            proof {
                assert(rest[0] == old(self).props@[i as int]@);
                assert(rest.drop_first() =~= old_list.subrange(i as int + 1, n));
                lemma_sub_props_model(&self.props@[i as int]);
            }
            if self.props[i].key == prop.key {
                let mut p = self.props.remove(i);
                p.state = prop.state;
                p.label = prop.label.clone();
                p.icon = prop.icon.clone();
                p.tooltip = prop.tooltip.clone();
                p.sensitive = prop.sensitive;
                p.visible = prop.visible;
                proof {
                    lemma_sub_props_model(&p);
                    lemma_sub_props_model(&old(self).props@[i as int]);
                }
                let ghost pm = p@;
                self.props.insert(i, p);
                proof {
                    assert(pm == apply_update(rest[0], prop@));
                    assert(self@ =~= self@.subrange(0, i as int) + update_props(rest, prop@)) by {
                        assert(update_props(rest, prop@) =~= rest.update(0, pm));
                    }
                }
                return;
            }
            if self.props[i].has_sub_props() {
                let mut p = self.props.remove(i);
                let mut sub = *p.sub_props;
                proof {
                    assert(decreases_to!(*old(self) => old(self).props));
                    assert(decreases_to!(old(self).props => old(self).props[i as int]));
                }
                sub.update_property(prop);
                p.sub_props = Box::new(sub);
                proof {
                    lemma_sub_props_model(&p);
                    lemma_sub_props_model(&old(self).props@[i as int]);
                }
                let ghost pm = p@;
                self.props.insert(i, p);
                proof {
                    assert(pm == (PropModel { sub_props: update_props(rest[0].sub_props, prop@), ..rest[0] }));
                    assert(self@.subrange(0, i as int + 1) =~= self@.subrange(0, i as int).push(pm));
                }
            } else {
                proof {
                    assert(self@.subrange(0, i as int + 1) =~= self@.subrange(0, i as int).push(rest[0]));
                }
            }
            proof {
                assert(self@.subrange(0, i as int) =~= old(self)@.subrange(0, 0) + self@.subrange(0, i as int));
            }
            i = i + 1;
        }
        proof {
            assert(old_list.subrange(n, n) =~= Seq::<PropModel>::empty());
            assert(self@.subrange(0, n) =~= self@);
        }
    }

    /// Look up a property by key, searching sub-properties too (see [`find_prop`]).
    pub fn get(&self, key: &str) -> (r: Option<&Prop>)
        ensures
            r is Some <==> find_prop(self@, key@) is Some,
            r matches Some(p) ==> p@ == find_prop(self@, key@)->0,
        decreases self,
    {
        let k = key.to_owned();
        let mut i: usize = 0;
        assert(self@.subrange(0, self@.len() as int) =~= self@);
        while i < self.props.len()
            invariant
                i <= self.props@.len(),
                k@ == key@,
                find_prop(self@, key@) == find_prop(self@.subrange(i as int, self@.len() as int), key@),
            decreases self.props@.len() - i,
        {
            let ghost rest = self@.subrange(i as int, self@.len() as int);
            proof {
                assert(rest[0] == self.props@[i as int]@);
                assert(rest.drop_first() =~= self@.subrange(i as int + 1, self@.len() as int));
                lemma_sub_props_model(&self.props@[i as int]);
            }
            let p = &self.props[i];
            if p.key == k {
                return Some(p);
            }
            if p.has_sub_props() {
                match p.sub_props.get(key) {
                    Some(found) => return Some(found),
                    None => {},
                }
            }
            i = i + 1;
        }
        None
    }
}

/// Decoding one more element of a property sequence.
pub proof fn lemma_decode_prop_seq_step(items: Seq<GModel>, i: int)
    requires
        0 <= i < items.len(),
    ensures
        decode_prop_seq(items.subrange(0, i + 1)) == (match decode_prop_seq(items.subrange(0, i)) {
            Outcome::Done(prefix) => match decode_prop(items[i]) {
                Outcome::Done(x) => Outcome::Done(prefix.push(x)),
                Outcome::Fail(m) => Outcome::Fail(m),
                Outcome::Abort => Outcome::Abort,
            },
            Outcome::Fail(m) => Outcome::Fail(m),
            Outcome::Abort => Outcome::Abort,
        }),
{
    assert(items.subrange(0, i + 1).drop_last() =~= items.subrange(0, i));
}

impl Prop {
    /// Serialize into the IBusSerializable wire format.
    pub fn to_value(&self) -> (v: GValue)
        ensures
            v@ == encode_prop(self@),
        decreases self,
    {
        proof {
            lemma_sub_props_model(self);
        }
        let label_val = make_variant(self.label.to_value());
        let tooltip_val = make_variant(self.tooltip.to_value());
        let sub_props_val = make_variant(self.sub_props.to_value());
        let symbol_val = make_variant(self.symbol.to_value());
        let mut f: Vec<GValue> = Vec::new();
        f.push(GValue::Str(self.key.clone()));
        f.push(GValue::U32(self.prop_type));
        f.push(label_val);
        f.push(GValue::Str(self.icon.clone()));
        f.push(tooltip_val);
        f.push(GValue::Bool(self.sensitive));
        f.push(GValue::Bool(self.visible));
        f.push(GValue::U32(self.state));
        f.push(sub_props_val);
        f.push(symbol_val);
        proof {
            assert(models_of(f@) =~= seq![
                GModel::Str(self@.key),
                GModel::U32(self@.prop_type),
                variant_of(encode_text(self@.label)),
                GModel::Str(self@.icon),
                variant_of(encode_text(self@.tooltip)),
                GModel::Bool(self@.sensitive),
                GModel::Bool(self@.visible),
                GModel::U32(self@.state),
                variant_of(encode_props(self@.sub_props)),
                variant_of(encode_text(self@.symbol)),
            ]);
        }
        let inner = make_struct(f);
        wrap_serializable("IBusProperty", inner)
    }

    /// Deserialize from the IBusSerializable wire format.
    pub fn from_value(value: &GValue) -> (r: Result<Prop, Error>)
        requires
            !(decode_prop(value@) is Abort),
        ensures
            match decode_prop(value@) {
                Outcome::Done(m) => r matches Ok(p) && p@ == m,
                Outcome::Fail(m) => r matches Err(Error::Connection(e)) && e@ == m,
                Outcome::Abort => false,
            },
        decreases gheight(value@),
    {
        let inner = match unwrap_serializable(value, "IBusProperty") {
            Ok(v) => v,
            Err(e) => return Err(e),
        };
        proof {
            lemma_gheight_payload(value@, "IBusProperty"@);
        }
        if let GValue::Struct(fields) = &inner {
            proof {
                lemma_items_model(fields);
            }
            if fields.len() >= 9 {
                let key = match &fields[0] {
                    GValue::Str(s) => s.clone(),
                    _ => return Err(Error::Connection("Invalid key: incorrect type".to_owned())),
                };
                let prop_type = match &fields[1] {
                    GValue::U32(n) => *n,
                    _ => return Err(Error::Connection("Invalid prop_type: incorrect type".to_owned())),
                };
                let label = match Text::from_value(unvariant_ref(&fields[2])) {
                    Ok(t) => t,
                    Err(e) => return Err(e),
                };
                let icon = match &fields[3] {
                    GValue::Str(s) => s.clone(),
                    _ => return Err(Error::Connection("Invalid icon: incorrect type".to_owned())),
                };
                let tooltip = match Text::from_value(unvariant_ref(&fields[4])) {
                    Ok(t) => t,
                    Err(e) => return Err(e),
                };
                let sensitive = match &fields[5] {
                    GValue::Bool(b) => *b,
                    _ => return Err(Error::Connection("Invalid sensitive: incorrect type".to_owned())),
                };
                let visible = match &fields[6] {
                    GValue::Bool(b) => *b,
                    _ => return Err(Error::Connection("Invalid visible: incorrect type".to_owned())),
                };
                let state = match &fields[7] {
                    GValue::U32(n) => *n,
                    _ => return Err(Error::Connection("Invalid state: incorrect type".to_owned())),
                };
                proof {
                    lemma_gheight_strip(fields@[8]@);
                }
                let sub_props = match PropList::from_value(unvariant_ref(&fields[8])) {
                    Ok(l) => l,
                    Err(e) => return Err(e),
                };
                let symbol = if fields.len() >= 10 {
                    match Text::from_value(unvariant_ref(&fields[9])) {
                        Ok(t) => t,
                        Err(e) => return Err(e),
                    }
                } else {
                    let t = Text::new("");
                    proof {
                        reveal_strlit("");
                        assert(""@ =~= Seq::<char>::empty());
                    }
                    t
                };
                let p = Prop {
                    key,
                    prop_type,
                    label,
                    icon,
                    tooltip,
                    sensitive,
                    visible,
                    state,
                    sub_props: Box::new(sub_props),
                    symbol,
                };
                proof {
                    lemma_sub_props_model(&p);
                }
                return Ok(p);
            }
        }
        Err(Error::Connection("Invalid IBusProperty inner structure".to_owned()))
    }
}

impl PropList {
    /// Serialize into the IBusSerializable wire format.
    pub fn to_value(&self) -> (v: GValue)
        ensures
            v@ == encode_props(self@),
        decreases self,
    {
        let mut items: Vec<GValue> = Vec::new();
        let mut i: usize = 0;
        while i < self.props.len()
            invariant
                i <= self.props@.len(),
                models_of(items@) == encode_prop_elems(self@.subrange(0, i as int)),
            decreases self.props@.len() - i,
        {
            let e = make_variant(self.props[i].to_value());
            proof {
                lemma_models_push(items@, e);
                assert(self@.subrange(0, i as int + 1).drop_last() =~= self@.subrange(0, i as int));
            }
            items.push(e);
            i = i + 1;
        }
        proof {
            assert(self@.subrange(0, self@.len() as int) =~= self@);
        }
        let inner = make_array(items);
        wrap_serializable("IBusPropList", inner)
    }

    /// Deserialize from the IBusSerializable wire format.
    pub fn from_value(value: &GValue) -> (r: Result<PropList, Error>)
        requires
            !(decode_proplist(value@) is Abort),
        ensures
            match decode_proplist(value@) {
                Outcome::Done(s) => r matches Ok(l) && l@ == s,
                Outcome::Fail(m) => r matches Err(Error::Connection(e)) && e@ == m,
                Outcome::Abort => false,
            },
        decreases gheight(value@),
    {
        let inner = match unwrap_serializable(value, "IBusPropList") {
            Ok(v) => v,
            Err(e) => return Err(e),
        };
        proof {
            lemma_gheight_payload(value@, "IBusPropList"@);
        }
        if let GValue::Array(arr) = &inner {
            proof {
                lemma_items_model(arr);
            }
            let ghost items = models_of(arr@);
            let ghost h = gheight(value@);
            proof {
                assert(decode_proplist(value@) == decode_prop_seq(items));
                assert(gheights(items) < h);
            }
            let mut props: Vec<Prop> = Vec::new();
            let mut i: usize = 0;
            proof {
                assert(items.subrange(0, 0) =~= Seq::<GModel>::empty());
                assert(props_model(props@) =~= Seq::<PropModel>::empty());
            }
            while i < arr.len()
                invariant
                    i <= arr@.len(),
                    items == models_of(arr@),
                    h == gheight(value@),
                    gheights(items) < h,
                    decode_proplist(value@) == decode_prop_seq(items),
                    !(decode_prop_seq(items) is Abort),
                    decode_prop_seq(items.subrange(0, i as int)) == Outcome::Done(props_model(props@)),
                decreases arr@.len() - i,
            {
                proof {
                    lemma_decode_prop_seq_step(items, i as int);
                    if !(decode_prop_seq(items.subrange(0, i as int + 1)) is Done) {
                        lemma_decode_prop_seq_prefix(items, i as int + 1);
                    }
                    assert(items[i as int] == arr@[i as int]@);
                    lemma_gheights_elem(items, i as int);
                }
                match Prop::from_value(&arr[i]) {
                    Ok(p) => {
                        proof {
                            assert(props_model(props@.push(p)) =~= props_model(props@).push(p@));
                        }
                        props.push(p);
                    },
                    Err(e) => {
                        proof {
                            lemma_decode_prop_seq_prefix(items, i as int + 1);
                        }
                        return Err(e);
                    },
                }
                i = i + 1;
            }
            proof {
                assert(items.subrange(0, items.len() as int) =~= items);
            }
            return Ok(PropList { props });
        }
        Err(Error::Connection("Invalid IBusPropList inner structure".to_owned()))
    }
}

/// The type numbered `v`, normal when `v` names none.
pub open spec fn prop_type_from(v: u32) -> PropType {
    if v == 1 { PropType::Toggle }
    else if v == 2 { PropType::Radio }
    else if v == 3 { PropType::Menu }
    else if v == 4 { PropType::Separator }
    else { PropType::Normal }
}

/// The state numbered `v`, unchecked when `v` names none.
pub open spec fn prop_state_from(v: u32) -> PropState {
    if v == 1 { PropState::Checked }
    else if v == 2 { PropState::Inconsistent }
    else { PropState::Unchecked }
}

impl vstd::std_specs::convert::FromSpecImpl<PropType> for u32 {
    open spec fn obeys_from_spec() -> bool {
        true
    }

    open spec fn from_spec(t: PropType) -> u32 {
        prop_type_code(t)
    }
}

impl From<PropType> for u32 {
    fn from(t: PropType) -> (r: u32) {
        t.to_u32()
    }
}

impl vstd::std_specs::convert::FromSpecImpl<u32> for PropType {
    open spec fn obeys_from_spec() -> bool {
        true
    }

    open spec fn from_spec(v: u32) -> PropType {
        prop_type_from(v)
    }
}

impl From<u32> for PropType {
    fn from(v: u32) -> (r: PropType) {
        PropType::from_u32_or_normal(v)
    }
}

impl vstd::std_specs::convert::FromSpecImpl<PropState> for u32 {
    open spec fn obeys_from_spec() -> bool {
        true
    }

    open spec fn from_spec(s: PropState) -> u32 {
        prop_state_code(s)
    }
}

impl From<PropState> for u32 {
    fn from(s: PropState) -> (r: u32) {
        s.to_u32()
    }
}

impl vstd::std_specs::convert::FromSpecImpl<u32> for PropState {
    open spec fn obeys_from_spec() -> bool {
        true
    }

    open spec fn from_spec(v: u32) -> PropState {
        prop_state_from(v)
    }
}

impl From<u32> for PropState {
    fn from(v: u32) -> (r: PropState) {
        PropState::from_u32_or_unchecked(v)
    }
}

impl vstd::std_specs::convert::FromSpecImpl<Vec<Prop>> for PropList {
    open spec fn obeys_from_spec() -> bool {
        true
    }

    open spec fn from_spec(v: Vec<Prop>) -> PropList {
        PropList { props: v }
    }
}

impl From<Vec<Prop>> for PropList {
    fn from(props: Vec<Prop>) -> (r: PropList) {
        PropList { props }
    }
}

impl Prop {
    /// A copy of the property and of its sub-properties.
    fn copy(&self) -> (r: Prop)
        ensures
            r@ == self@,
        decreases self,
    {
        proof {
            lemma_sub_props_model(self);
        }
        let sub = self.sub_props.copy();
        let r = Prop {
            key: self.key.clone(),
            prop_type: self.prop_type,
            label: self.label.clone(),
            icon: self.icon.clone(),
            tooltip: self.tooltip.clone(),
            sensitive: self.sensitive,
            visible: self.visible,
            state: self.state,
            sub_props: Box::new(sub),
            symbol: self.symbol.clone(),
        };
        proof {
            lemma_sub_props_model(&r);
        }
        r
    }
}

impl PropList {
    /// A copy of the list and of every property in it.
    fn copy(&self) -> (r: PropList)
        ensures
            r@ == self@,
        decreases self,
    {
        let mut props: Vec<Prop> = Vec::new();
        let mut i: usize = 0;
        while i < self.props.len()
            invariant
                i <= self.props@.len(),
                props_model(props@) =~= self@.subrange(0, i as int),
            decreases self.props@.len() - i,
        {
            let p = self.props[i].copy();
            proof {
                assert(props_model(props@.push(p)) =~= props_model(props@).push(p@));
            }
            props.push(p);
            i = i + 1;
        }
        proof {
            assert(self@.subrange(0, self@.len() as int) =~= self@);
        }
        PropList { props }
    }
}

impl Clone for Prop {
    fn clone(&self) -> (r: Prop)
        ensures
            r@ == self@,
    {
        self.copy()
    }
}

impl Clone for PropList {
    fn clone(&self) -> (r: PropList)
        ensures
            r@ == self@,
    {
        self.copy()
    }
}

/// An update whose key no property has leaves the list as it was.
pub proof fn law_update_missing_key_unchanged(s: Seq<PropModel>, u: PropModel)
    requires
        find_prop(s, u.key) is None,
    ensures
        update_props(s, u) == s,
    decreases s,
{
    if s.len() > 0 {
        if s[0].sub_props.len() > 0 {
            law_update_missing_key_unchanged(s[0].sub_props, u);
        }
        law_update_missing_key_unchanged(s.drop_first(), u);
        assert(seq![s[0]] + s.drop_first() =~= s);
    }
}

/// Looking a key up after an update with that key finds the property that
/// the lookup found before, with the update's state, label, icon, tooltip,
/// sensitivity and visibility.
pub proof fn law_get_after_update(s: Seq<PropModel>, u: PropModel)
    requires
        find_prop(s, u.key) is Some,
    ensures
        find_prop(update_props(s, u), u.key) == Some(apply_update(find_prop(s, u.key)->0, u)),
        find_prop(update_props(s, u), u.key) matches Some(q) && {
            let p = find_prop(s, u.key)->0;
            &&& q.key == u.key
            &&& q.state == u.state
            &&& q.label == u.label
            &&& q.icon == u.icon
            &&& q.tooltip == u.tooltip
            &&& q.sensitive == u.sensitive
            &&& q.visible == u.visible
            &&& q.prop_type == p.prop_type
            &&& q.sub_props == p.sub_props
            &&& q.symbol == p.symbol
        },
    decreases s,
{
    law_get_after_update_found(s, u);
    law_found_has_key(s, u.key);
}

/// A property that the lookup finds has the key that was looked up.
pub proof fn law_found_has_key(s: Seq<PropModel>, key: Seq<char>)
    ensures
        find_prop(s, key) matches Some(p) ==> p.key == key,
    decreases s,
{
    if s.len() > 0 && s[0].key != key {
        if s[0].sub_props.len() > 0 {
            law_found_has_key(s[0].sub_props, key);
        }
        law_found_has_key(s.drop_first(), key);
    }
}

proof fn law_get_after_update_found(s: Seq<PropModel>, u: PropModel)
    requires
        find_prop(s, u.key) is Some,
    ensures
        find_prop(update_props(s, u), u.key) == Some(apply_update(find_prop(s, u.key)->0, u)),
    decreases s,
{
    let k = u.key;
    let t = update_props(s, u);
    if s[0].key != k {
        let first = if s[0].sub_props.len() > 0 {
            PropModel { sub_props: update_props(s[0].sub_props, u), ..s[0] }
        } else {
            s[0]
        };
        assert(t[0] == first);
        assert(t.drop_first() =~= update_props(s.drop_first(), u));
        if s[0].sub_props.len() > 0 && find_prop(s[0].sub_props, k) is Some {
            law_get_after_update_found(s[0].sub_props, u);
        } else {
            if s[0].sub_props.len() > 0 {
                law_update_missing_key_unchanged(s[0].sub_props, u);
            }
            law_get_after_update_found(s.drop_first(), u);
        }
    }
}

/// Converting a property type or state to its number and back gives the
/// same type or state.
pub proof fn law_prop_codes_roundtrip(t: PropType, s: PropState)
    ensures
        prop_type_from(prop_type_code(t)) == t,
        prop_state_from(prop_state_code(s)) == s,
{
}

} // verus!
