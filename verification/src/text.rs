use vstd::prelude::*;

use crate::attr::{decode_attrs, encode_attrs, law_attrs_roundtrip, Attr, AttrList};
use crate::error::Error;
use crate::gvalue::{
    envelope_failure,
    lemma_items_model, make_struct, make_variant, models_of, unvariant, unvariant_ref,
    unwrap_model, unwrap_serializable, variant_of, wrap_model, wrap_serializable, GModel, GValue,
    Outcome, Unwrapped,
};

verus! {

/// Number of bytes in the UTF-8 encoding of a character sequence.
pub open spec fn utf8_len(s: Seq<char>) -> nat {
    vstd::utf8::encode_utf8(s).len()
}

/// Byte length of a string as `str::len` reports it.
pub open spec fn byte_count(s: Seq<char>) -> usize {
    utf8_len(s) as usize
}

/// A string with optional text attributes and a cursor position.
#[derive(Debug)]
pub struct Text {
    /// The plain-text content.
    pub text: String,
    /// Text attributes (underline, colour, etc.).
    pub attrs: AttrList,
    /// Cursor position within the text.
    pub cursor_pos: u32,
}

/// The mathematical content of a [`Text`].
pub struct TextModel {
    pub text: Seq<char>,
    pub attrs: Seq<Attr>,
    pub cursor_pos: u32,
}

impl View for Text {
    type V = TextModel;

    open spec fn view(&self) -> TextModel {
        TextModel { text: self.text@, attrs: self.attrs@, cursor_pos: self.cursor_pos }
    }
}

/// The text that `Text::with_cursor` builds.
pub open spec fn text_model(text: Seq<char>, attrs: Seq<Attr>, cursor_pos: u32) -> TextModel {
    TextModel { text, attrs, cursor_pos }
}

/// The text that `Text::new` builds: no attributes, cursor at the end (in bytes).
pub open spec fn plain_text(text: Seq<char>) -> TextModel {
    TextModel { text, attrs: Seq::empty(), cursor_pos: byte_count(text) as u32 }
}

/// Byte length of a string slice.
pub fn str_byte_len(s: &str) -> (n: usize)
    ensures
        n == byte_count(s@),
{
    s.len()
}

impl Text {
    /// Create a new text with no attributes; the cursor is placed after the last byte.
    pub fn new(text: &str) -> (t: Text)
        ensures
            t@ == plain_text(text@),
    {
        let n = str_byte_len(text);
        Text { text: text.to_owned(), attrs: AttrList::new(), cursor_pos: n as u32 }
    }

    /// Create a new text with attributes; the cursor is placed after the last byte.
    pub fn with_attrs(text: &str, attrs: AttrList) -> (t: Text)
        ensures
            t@ == text_model(text@, attrs@, byte_count(text@) as u32),
    {
        let n = str_byte_len(text);
        Text { text: text.to_owned(), attrs, cursor_pos: n as u32 }
    }

    /// Create a text with attributes and a specific cursor position.
    pub fn with_cursor(text: &str, attrs: AttrList, cursor_pos: u32) -> (t: Text)
        ensures
            t@ == text_model(text@, attrs@, cursor_pos),
    {
        Text { text: text.to_owned(), attrs, cursor_pos }
    }

    /// Return the byte length of the text.
    pub fn len(&self) -> (n: usize)
        ensures
            n == byte_count(self.text@),
    {
        str_byte_len(self.text.as_str())
    }

    /// Whether the text is empty.
    pub fn is_empty(&self) -> (b: bool)
        ensures
            b == (self.text@.len() == 0),
    {
        self.text.as_str().is_empty()
    }

    /// Append a string to the text and move the cursor to the end.
    pub fn append(&mut self, other: &str)
        ensures
            final(self).text@ == old(self).text@ + other@,
            final(self).attrs@ == old(self).attrs@,
            final(self).cursor_pos == byte_count(old(self).text@ + other@) as u32,
    {
        self.text.append(other);
        let n = str_byte_len(self.text.as_str());
        self.cursor_pos = n as u32;
    }

    /// Clear the text, attributes, and reset the cursor.
    pub fn clear(&mut self)
        ensures
            final(self)@ == text_model(Seq::empty(), Seq::empty(), 0),
    {
        self.text = String::new();
        self.attrs = AttrList::new();
        self.cursor_pos = 0;
    }

    /// The text as it is displayed: its plain-text content.
    pub fn display(&self) -> (s: String)
        ensures
            s@ == self.text@,
    {
        self.text.clone()
    }

    /// Build a text from an owned string (same as [`Text::new`]).
    pub fn from_string(text: String) -> (t: Text)
        ensures
            t@ == plain_text(text@),
    {
        Text::new(text.as_str())
    }
}

impl vstd::std_specs::convert::FromSpecImpl<&str> for Text {
    open spec fn obeys_from_spec() -> bool {
        false
    }

    open spec fn from_spec(v: &str) -> Text {
        choose|t: Text| t@ == plain_text(v@)
    }
}

impl From<&str> for Text {
    /// Same as [`Text::new`].
    fn from(text: &str) -> (t: Text)
        ensures
            t@ == plain_text(text@),
    {
        Text::new(text)
    }
}

impl vstd::std_specs::convert::FromSpecImpl<String> for Text {
    open spec fn obeys_from_spec() -> bool {
        false
    }

    open spec fn from_spec(v: String) -> Text {
        choose|t: Text| t@ == plain_text(v@)
    }
}

impl From<String> for Text {
    /// Same as [`Text::new`].
    fn from(text: String) -> (t: Text)
        ensures
            t@ == plain_text(text@),
    {
        Text::new(text.as_str())
    }
}

impl vstd::std_specs::convert::FromSpecImpl<&String> for Text {
    open spec fn obeys_from_spec() -> bool {
        false
    }

    open spec fn from_spec(v: &String) -> Text {
        choose|t: Text| t@ == plain_text(v@)
    }
}

impl From<&String> for Text {
    /// Same as [`Text::new`].
    fn from(text: &String) -> (t: Text)
        ensures
            t@ == plain_text(text@),
    {
        Text::new(text.as_str())
    }
}

impl Clone for Text {
    fn clone(&self) -> (r: Text)
        ensures
            r@ == self@,
    {
        Text { text: self.text.clone(), attrs: self.attrs.clone(), cursor_pos: self.cursor_pos }
    }
}

/// The text with its cursor moved after the last byte, as decoding leaves it.
pub open spec fn with_end_cursor(t: TextModel) -> TextModel {
    TextModel { cursor_pos: byte_count(t.text) as u32, ..t }
}

/// The wire encoding of a text: `("IBusText", {}, text, <attribute list>)`.
/// The cursor position is not part of the encoding.
pub open spec fn encode_text(t: TextModel) -> GModel {
    wrap_model("IBusText"@, GModel::Struct(seq![GModel::Str(t.text), variant_of(encode_attrs(t.attrs))]))
}

/// Decoding a text: an `IBusText` envelope around a string and an attribute
/// list; the cursor is placed after the last byte.
pub open spec fn decode_text(g: GModel) -> Outcome<TextModel> {
    match unwrap_model(g, "IBusText"@) {
        Unwrapped::Payload(p) => match p {
            GModel::Struct(f) => if f.len() < 2 {
                Outcome::Fail("Invalid IBusText inner structure"@)
            } else if !(f[0] is Str) {
                Outcome::Fail("Invalid text: incorrect type"@)
            } else {
                match decode_attrs(unvariant(f[1])) {
                    Outcome::Done(attrs) => Outcome::Done(
                        with_end_cursor(TextModel { text: f[0]->Str_0, attrs, cursor_pos: 0 }),
                    ),
                    Outcome::Fail(m) => Outcome::Fail(m),
                    Outcome::Abort => Outcome::Abort,
                }
            },
            _ => Outcome::Fail("Invalid IBusText inner structure"@),
        },
        u => envelope_failure(u, "IBusText"@),
    }
}

/// The decoder of one text, as a function value.
pub open spec fn text_decoder() -> spec_fn(GModel) -> Outcome<TextModel> {
    |x: GModel| decode_text(x)
}

/// The element encoding of a text inside an array: a variant holding the text.
pub open spec fn encode_text_elem(t: TextModel) -> GModel {
    variant_of(encode_text(t))
}

/// The wire layout of a text: the class name, an empty attachment
/// dictionary, the string, then its attribute list in a variant.
pub proof fn law_text_wire_layout(t: TextModel)
    ensures
        encode_text(t) == GModel::Struct(
            seq![
                GModel::Str("IBusText"@),
                GModel::Dict(Seq::empty()),
                GModel::Str(t.text),
                variant_of(encode_attrs(t.attrs)),
            ],
        ),
{
    let head = seq![GModel::Str("IBusText"@), GModel::Dict(Seq::empty())];
    let f = seq![GModel::Str(t.text), variant_of(encode_attrs(t.attrs))];
    assert(head + f =~= seq![
        GModel::Str("IBusText"@),
        GModel::Dict(Seq::empty()),
        GModel::Str(t.text),
        variant_of(encode_attrs(t.attrs)),
    ]);
}

/// Decoding an encoded text gives the text back, with the cursor after the
/// last byte.
pub proof fn law_text_roundtrip(t: TextModel)
    ensures
        decode_text(encode_text(t)) == Outcome::Done(with_end_cursor(t)),
        decode_text(encode_text_elem(t)) == Outcome::Done(with_end_cursor(t)),
{
    law_attrs_roundtrip(t.attrs);
    let f = seq![GModel::Str(t.text), variant_of(encode_attrs(t.attrs))];
    let head = seq![GModel::Str("IBusText"@), GModel::Dict(Seq::empty())];
    assert((head + f).subrange(2, 4) =~= f);
}

impl Text {
    /// Serialize into the IBusSerializable wire format.
    pub fn to_value(&self) -> (v: GValue)
        ensures
            v@ == encode_text(self@),
    {
        let mut f: Vec<GValue> = Vec::new();
        f.push(GValue::Str(self.text.clone()));
        f.push(make_variant(self.attrs.to_value()));
        proof {
            assert(models_of(f@) =~= seq![GModel::Str(self.text@), variant_of(encode_attrs(self.attrs@))]);
        }
        let inner = make_struct(f);
        wrap_serializable("IBusText", inner)
    }

    /// Deserialize from the IBusSerializable wire format; the cursor is
    /// placed after the last byte.
    pub fn from_value(value: &GValue) -> (r: Result<Text, Error>)
        requires
            !(decode_text(value@) is Abort),
        ensures
            match decode_text(value@) {
                Outcome::Done(t) => r matches Ok(x) && x@ == t,
                Outcome::Fail(m) => r matches Err(Error::Connection(e)) && e@ == m,
                Outcome::Abort => false,
            },
    {
        let inner = match unwrap_serializable(value, "IBusText") {
            Ok(v) => v,
            Err(e) => return Err(e),
        };
        if let GValue::Struct(fields) = &inner {
            proof {
                lemma_items_model(fields);
            }
            if fields.len() >= 2 {
                let text_str = match &fields[0] {
                    GValue::Str(s) => s.clone(),
                    _ => return Err(Error::Connection("Invalid text: incorrect type".to_owned())),
                };
                let attrs_val = unvariant_ref(&fields[1]);
                let attrs = match AttrList::from_value(attrs_val) {
                    Ok(a) => a,
                    Err(e) => return Err(e),
                };
                let n = str_byte_len(text_str.as_str());
                return Ok(Text { text: text_str, attrs, cursor_pos: n as u32 });
            }
        }
        Err(Error::Connection("Invalid IBusText inner structure".to_owned()))
    }
}

} // verus!
