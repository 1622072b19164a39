use vstd::prelude::*;

use crate::error::Error;
use crate::gvalue::{
    envelope_failure,
    decode_seq, lemma_decode_seq_encoded, lemma_decode_seq_prefix, lemma_decode_seq_step,
    lemma_items_model, lemma_models_push, make_array, make_struct, make_variant, models_of,
    unwrap_model, unwrap_serializable, variant_of, wrap_model, wrap_serializable, GModel, GValue,
    Outcome, Unwrapped,
};

verus! {

/// Attribute type for text formatting, numbered from zero in declaration order.
#[derive(Debug, Clone, Copy, PartialEq, Eq, Structural)]
pub enum AttrType {
    /// Underline style.
    Underline,
    /// Foreground colour (ABGR).
    Foreground,
    /// Background colour (ABGR).
    Background,
    /// Font style.
    FontStyle,
    /// Font weight.
    FontWeight,
    /// Rise (vertical offset in pixels).
    Rise,
    /// Strikethrough.
    Strikethrough,
    /// Font scale factor.
    Scale,
    /// Text alignment.
    Align,
}

/// The protocol number of an attribute type.
pub open spec fn attr_type_code(t: AttrType) -> u32 {
    match t {
        AttrType::Underline => 0,
        AttrType::Foreground => 1,
        AttrType::Background => 2,
        AttrType::FontStyle => 3,
        AttrType::FontWeight => 4,
        AttrType::Rise => 5,
        AttrType::Strikethrough => 6,
        AttrType::Scale => 7,
        AttrType::Align => 8,
    }
}

impl AttrType {
    /// Convert a `u32` to an `AttrType`, returning `None` for unknown values.
    pub fn from_u32(v: u32) -> (r: Option<AttrType>)
        ensures
            r is Some <==> v < 9,
            r matches Some(t) ==> attr_type_code(t) == v,
    {
        match v {
            0 => Some(AttrType::Underline),
            1 => Some(AttrType::Foreground),
            2 => Some(AttrType::Background),
            3 => Some(AttrType::FontStyle),
            4 => Some(AttrType::FontWeight),
            5 => Some(AttrType::Rise),
            6 => Some(AttrType::Strikethrough),
            7 => Some(AttrType::Scale),
            8 => Some(AttrType::Align),
            _ => None,
        }
    }

    /// Convert to the protocol integer.
    pub fn to_u32(self) -> (r: u32)
        ensures
            r == attr_type_code(self),
    {
        match self {
            AttrType::Underline => 0,
            AttrType::Foreground => 1,
            AttrType::Background => 2,
            AttrType::FontStyle => 3,
            AttrType::FontWeight => 4,
            AttrType::Rise => 5,
            AttrType::Strikethrough => 6,
            AttrType::Scale => 7,
            AttrType::Align => 8,
        }
    }
}

/// Every attribute type has its own number, below nine, so converting a
/// type to its number and back gives the same type.
pub proof fn law_attr_type_codes(t: AttrType, u: AttrType)
    ensures
        attr_type_code(t) < 9,
        attr_type_code(t) == attr_type_code(u) ==> t == u,
{
}

/// A single text attribute (underline, foreground colour, etc.).
#[derive(Debug, Clone, Copy, PartialEq, Eq, Structural)]
pub struct Attr {
    /// Attribute type (see [`AttrType`]).
    pub attr_type: u32,
    /// Attribute value (interpretation depends on type).
    pub value: u32,
    /// Start byte index (inclusive).
    pub start_index: u32,
    /// End byte index (exclusive).
    pub end_index: u32,
}

impl Attr {
    /// Create a new attribute.
    pub fn new(attr_type: AttrType, value: u32, start_index: u32, end_index: u32) -> (a: Attr)
        ensures
            a == (Attr { attr_type: attr_type_code(attr_type), value, start_index, end_index }),
    {
        Attr { attr_type: attr_type.to_u32(), value, start_index, end_index }
    }

    /// Create an underline attribute.
    pub fn underline(style: u32, start_index: u32, end_index: u32) -> (a: Attr)
        ensures
            a == (Attr { attr_type: 0, value: style, start_index, end_index }),
    {
        Self::new(AttrType::Underline, style, start_index, end_index)
    }

    /// Create a foreground colour attribute (`color` is ABGR).
    pub fn foreground(color: u32, start_index: u32, end_index: u32) -> (a: Attr)
        ensures
            a == (Attr { attr_type: 1, value: color, start_index, end_index }),
    {
        Self::new(AttrType::Foreground, color, start_index, end_index)
    }

    /// Create a background colour attribute (`color` is ABGR).
    pub fn background(color: u32, start_index: u32, end_index: u32) -> (a: Attr)
        ensures
            a == (Attr { attr_type: 2, value: color, start_index, end_index }),
    {
        Self::new(AttrType::Background, color, start_index, end_index)
    }

    /// Return the [`AttrType`] if it is recognised, or `None`.
    pub fn attr_type(&self) -> (r: Option<AttrType>)
        ensures
            r is Some <==> self.attr_type < 9,
            r matches Some(t) ==> attr_type_code(t) == self.attr_type,
    {
        AttrType::from_u32(self.attr_type)
    }
}

/// A list of [`Attr`] instances applying to a text.
#[derive(Debug)]
pub struct AttrList {
    /// The contained attributes.
    pub attrs: Vec<Attr>,
}

impl View for AttrList {
    type V = Seq<Attr>;

    open spec fn view(&self) -> Seq<Attr> {
        self.attrs@
    }
}

impl AttrList {
    /// Create an empty attribute list.
    pub fn new() -> (l: AttrList)
        ensures
            l@ == Seq::<Attr>::empty(),
    {
        AttrList { attrs: Vec::new() }
    }

    /// Append an attribute.
    pub fn append(&mut self, attr: Attr)
        ensures
            final(self)@ == old(self)@.push(attr),
    {
        self.attrs.push(attr);
    }

    /// Number of attributes.
    pub fn len(&self) -> (n: usize)
        ensures
            n == self@.len(),
    {
        self.attrs.len()
    }

    /// Whether the list is empty.
    pub fn is_empty(&self) -> (b: bool)
        ensures
            b == (self@.len() == 0),
    {
        self.attrs.len() == 0
    }

    /// Build a list holding exactly the given attributes.
    pub fn from_vec(attrs: Vec<Attr>) -> (l: AttrList)
        ensures
            l@ == attrs@,
    {
        AttrList { attrs }
    }
}

impl Clone for AttrList {
    fn clone(&self) -> (r: AttrList)
        ensures
            r@ == self@,
    {
        let mut attrs: Vec<Attr> = Vec::new();
        let mut i: usize = 0;
        while i < self.attrs.len()
            invariant
                i <= self.attrs@.len(),
                attrs@ == self.attrs@.subrange(0, i as int),
            decreases self.attrs@.len() - i,
        {
            attrs.push(self.attrs[i]);
            i = i + 1;
        }
        AttrList { attrs }
    }
}

impl Default for AttrList {
    fn default() -> (l: AttrList)
        ensures
            l@ == Seq::<Attr>::empty(),
    {
        AttrList::new()
    }
}

/// The wire encoding of an attribute:
/// `("IBusAttribute", {}, attr_type, value, start_index, end_index)`.
pub open spec fn encode_attr(a: Attr) -> GModel {
    wrap_model(
        "IBusAttribute"@,
        GModel::Struct(
            seq![
                GModel::U32(a.attr_type),
                GModel::U32(a.value),
                GModel::U32(a.start_index),
                GModel::U32(a.end_index),
            ],
        ),
    )
}

/// Decoding an attribute: the envelope must name `IBusAttribute` and its
/// payload must be a structure of at least four fields, each of the first
/// four a `u32` (the first that is not is reported).
pub open spec fn decode_attr(g: GModel) -> Outcome<Attr> {
    match unwrap_model(g, "IBusAttribute"@) {
        Unwrapped::Payload(p) => match p {
            GModel::Struct(f) => if f.len() < 4 {
                Outcome::Fail("Invalid IBusAttribute inner structure"@)
            } else if !(f[0] is U32) {
                Outcome::Fail("Invalid attr_type: incorrect type"@)
            } else if !(f[1] is U32) {
                Outcome::Fail("Invalid value: incorrect type"@)
            } else if !(f[2] is U32) {
                Outcome::Fail("Invalid start_index: incorrect type"@)
            } else if !(f[3] is U32) {
                Outcome::Fail("Invalid end_index: incorrect type"@)
            } else {
                Outcome::Done(
                    Attr {
                        attr_type: f[0]->U32_0,
                        value: f[1]->U32_0,
                        start_index: f[2]->U32_0,
                        end_index: f[3]->U32_0,
                    },
                )
            },
            _ => Outcome::Fail("Invalid IBusAttribute inner structure"@),
        },
        u => envelope_failure(u, "IBusAttribute"@),
    }
}

/// The decoder of one attribute, as a function value.
pub open spec fn attr_decoder() -> spec_fn(GModel) -> Outcome<Attr> {
    |x: GModel| decode_attr(x)
}

/// The element encoding inside an attribute list: a variant holding the attribute.
pub open spec fn encode_attr_elem(a: Attr) -> GModel {
    variant_of(encode_attr(a))
}

/// The wire encoding of an attribute list: `("IBusAttrList", {}, [<attr>, ...])`.
pub open spec fn encode_attrs(s: Seq<Attr>) -> GModel {
    wrap_model("IBusAttrList"@, GModel::Array(s.map_values(|a: Attr| encode_attr_elem(a))))
}

/// Decoding an attribute list: an `IBusAttrList` envelope around an array
/// of attributes, decoded in order.
pub open spec fn decode_attrs(g: GModel) -> Outcome<Seq<Attr>> {
    match unwrap_model(g, "IBusAttrList"@) {
        Unwrapped::Payload(p) => match p {
            GModel::Array(items) => decode_seq(items, attr_decoder()),
            _ => Outcome::Fail("Invalid IBusAttrList inner structure"@),
        },
        u => envelope_failure(u, "IBusAttrList"@),
    }
}

/// Decoding an encoded attribute gives the attribute back.
pub proof fn law_attr_roundtrip(a: Attr)
    ensures
        decode_attr(encode_attr(a)) == Outcome::Done(a),
        decode_attr(encode_attr_elem(a)) == Outcome::Done(a),
{
    let f = seq![GModel::U32(a.attr_type), GModel::U32(a.value), GModel::U32(a.start_index), GModel::U32(a.end_index)];
    let head = seq![GModel::Str("IBusAttribute"@), GModel::Dict(Seq::empty())];
    assert((head + f).subrange(2, 6) =~= f);
}

/// The wire layout of an attribute: the class name, an empty attachment
/// dictionary, then the type, the value, the start index and the end index,
/// in that order.
pub proof fn law_attr_wire_layout(a: Attr)
    ensures
        encode_attr(a) == GModel::Struct(
            seq![
                GModel::Str("IBusAttribute"@),
                GModel::Dict(Seq::empty()),
                GModel::U32(a.attr_type),
                GModel::U32(a.value),
                GModel::U32(a.start_index),
                GModel::U32(a.end_index),
            ],
        ),
{
    let head = seq![GModel::Str("IBusAttribute"@), GModel::Dict(Seq::empty())];
    let f = seq![GModel::U32(a.attr_type), GModel::U32(a.value), GModel::U32(a.start_index), GModel::U32(a.end_index)];
    assert(head + f =~= seq![
        GModel::Str("IBusAttribute"@),
        GModel::Dict(Seq::empty()),
        GModel::U32(a.attr_type),
        GModel::U32(a.value),
        GModel::U32(a.start_index),
        GModel::U32(a.end_index),
    ]);
}

/// Reading an attribute sent in the wire layout takes the third payload
/// field as the start index and the fourth as the end index.
pub proof fn law_attr_wire_read(t: u32, v: u32, start: u32, end: u32)
    ensures
        decode_attr(
            GModel::Struct(
                seq![
                    GModel::Str("IBusAttribute"@),
                    GModel::Dict(Seq::empty()),
                    GModel::U32(t),
                    GModel::U32(v),
                    GModel::U32(start),
                    GModel::U32(end),
                ],
            ),
        ) == Outcome::Done(Attr { attr_type: t, value: v, start_index: start, end_index: end }),
{
    let w = seq![
        GModel::Str("IBusAttribute"@),
        GModel::Dict(Seq::empty()),
        GModel::U32(t),
        GModel::U32(v),
        GModel::U32(start),
        GModel::U32(end),
    ];
    assert(w.subrange(2, 6) =~= seq![GModel::U32(t), GModel::U32(v), GModel::U32(start), GModel::U32(end)]);
}

/// Decoding an encoded attribute list gives the list back.
pub proof fn law_attrs_roundtrip(s: Seq<Attr>)
    ensures
        decode_attrs(encode_attrs(s)) == Outcome::Done(s),
{
    let enc = |a: Attr| encode_attr_elem(a);
    let f = attr_decoder();
    assert forall|a: Attr| #[trigger] f(enc(a)) == Outcome::Done(a) by {
        law_attr_roundtrip(a);
    }
    lemma_decode_seq_encoded(s, enc, f);
    let head = seq![GModel::Str("IBusAttrList"@), GModel::Dict(Seq::empty())];
    let whole = head.push(GModel::Array(s.map_values(enc)));
    assert(whole[2] == GModel::Array(s.map_values(enc)));
}

impl Attr {
    /// Serialize into the IBusSerializable wire format.
    pub fn to_value(&self) -> (v: GValue)
        ensures
            v@ == encode_attr(*self),
    {
        let mut f: Vec<GValue> = Vec::new();
        f.push(GValue::U32(self.attr_type));
        f.push(GValue::U32(self.value));
        f.push(GValue::U32(self.start_index));
        f.push(GValue::U32(self.end_index));
        let inner = make_struct(f);
        proof {
            assert(models_of(f@) =~= seq![GModel::U32(self.attr_type), GModel::U32(self.value), GModel::U32(self.start_index), GModel::U32(self.end_index)]);
        }
        wrap_serializable("IBusAttribute", inner)
    }

    /// Deserialize from the IBusSerializable wire format.
    pub fn from_value(value: &GValue) -> (r: Result<Attr, Error>)
        requires
            !(decode_attr(value@) is Abort),
        ensures
            match decode_attr(value@) {
                Outcome::Done(a) => r matches Ok(x) && x == a,
                Outcome::Fail(m) => r matches Err(Error::Connection(e)) && e@ == m,
                Outcome::Abort => false,
            },
    {
        let inner = match unwrap_serializable(value, "IBusAttribute") {
            Ok(v) => v,
            Err(e) => return Err(e),
        };
        if let GValue::Struct(fields) = &inner {
            proof {
                lemma_items_model(fields);
            }
            if fields.len() >= 4 {
                let attr_type = match &fields[0] {
                    GValue::U32(n) => *n,
                    _ => return Err(Error::Connection("Invalid attr_type: incorrect type".to_owned())),
                };
                let value_num = match &fields[1] {
                    GValue::U32(n) => *n,
                    _ => return Err(Error::Connection("Invalid value: incorrect type".to_owned())),
                };
                let start_index = match &fields[2] {
                    GValue::U32(n) => *n,
                    _ => return Err(Error::Connection("Invalid start_index: incorrect type".to_owned())),
                };
                let end_index = match &fields[3] {
                    GValue::U32(n) => *n,
                    _ => return Err(Error::Connection("Invalid end_index: incorrect type".to_owned())),
                };
                return Ok(Attr { attr_type, value: value_num, start_index, end_index });
            }
        }
        Err(Error::Connection("Invalid IBusAttribute inner structure".to_owned()))
    }
}

impl AttrList {
    /// Serialize into the IBusSerializable wire format.
    pub fn to_value(&self) -> (v: GValue)
        ensures
            v@ == encode_attrs(self@),
    {
        let mut items: Vec<GValue> = Vec::new();
        let mut i: usize = 0;
        while i < self.attrs.len()
            invariant
                i <= self.attrs@.len(),
                models_of(items@) == self@.subrange(0, i as int).map_values(|a: Attr| encode_attr_elem(a)),
            decreases self.attrs@.len() - i,
        {
            let e = make_variant(self.attrs[i].to_value());
            proof {
                lemma_models_push(items@, e);
                assert(self@.subrange(0, i as int + 1).map_values(|a: Attr| encode_attr_elem(a)) =~= self@.subrange(0, i as int).map_values(|a: Attr| encode_attr_elem(a)).push(e@));
            }
            items.push(e);
            i = i + 1;
        }
        proof {
            assert(self@.subrange(0, self@.len() as int) =~= self@);
        }
        let inner = make_array(items);
        wrap_serializable("IBusAttrList", inner)
    }

    /// Deserialize from the IBusSerializable wire format.
    pub fn from_value(value: &GValue) -> (r: Result<AttrList, Error>)
        requires
            !(decode_attrs(value@) is Abort),
        ensures
            match decode_attrs(value@) {
                Outcome::Done(s) => r matches Ok(l) && l@ == s,
                Outcome::Fail(m) => r matches Err(Error::Connection(e)) && e@ == m,
                Outcome::Abort => false,
            },
    {
        let inner = match unwrap_serializable(value, "IBusAttrList") {
            Ok(v) => v,
            Err(e) => return Err(e),
        };
        if let GValue::Array(arr) = &inner {
            proof {
                lemma_items_model(arr);
            }
            let ghost items = models_of(arr@);
            let ghost f = attr_decoder();
            assert(decode_attrs(value@) == decode_seq(items, f));
            let mut attrs: Vec<Attr> = Vec::new();
            let mut i: usize = 0;
            proof {
                assert(items.subrange(0, 0) =~= Seq::<GModel>::empty());
            }
            while i < arr.len()
                invariant
                    i <= arr@.len(),
                    items == models_of(arr@),
                    f == attr_decoder(),
                    decode_attrs(value@) == decode_seq(items, f),
                    !(decode_seq(items, f) is Abort),
                    decode_seq(items.subrange(0, i as int), f) == Outcome::Done(attrs@),
                decreases arr@.len() - i,
            {
                proof {
                    lemma_decode_seq_step(items, f, i as int);
                    if !(decode_seq(items.subrange(0, i as int + 1), f) is Done) {
                        lemma_decode_seq_prefix(items, f, i as int + 1);
                    }
                }
                proof {
                    assert(items[i as int] == arr@[i as int]@);
                    assert(f(items[i as int]) == decode_attr(arr@[i as int]@));
                }
                match Attr::from_value(&arr[i]) {
                    Ok(a) => attrs.push(a),
                    Err(e) => {
                        proof {
                            assert(decode_seq(items.subrange(0, i as int + 1), f) is Fail);
                            lemma_decode_seq_prefix(items, f, i as int + 1);
                        }
                        return Err(e);
                    },
                }
                i = i + 1;
            }
            proof {
                assert(items.subrange(0, items.len() as int) =~= items);
            }
            return Ok(AttrList { attrs });
        }
        Err(Error::Connection("Invalid IBusAttrList inner structure".to_owned()))
    }
}

impl vstd::std_specs::convert::FromSpecImpl<Vec<Attr>> for AttrList {
    open spec fn obeys_from_spec() -> bool {
        true
    }

    open spec fn from_spec(v: Vec<Attr>) -> AttrList {
        AttrList { attrs: v }
    }
}

impl From<Vec<Attr>> for AttrList {
    fn from(attrs: Vec<Attr>) -> (r: AttrList) {
        AttrList { attrs }
    }
}

} // verus!
