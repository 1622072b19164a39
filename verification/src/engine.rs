//! What an engine reads from the requests the IBus daemon sends it.
use vstd::prelude::*;

use crate::gvalue::{unwrap_model, unwrap_serializable, GModel, GValue, Unwrapped};

verus! {

/// The text of an `IBusText` sent as surrounding text: the payload string,
/// or the first payload field when it is a string; empty otherwise.
pub open spec fn surrounding_text_of(g: GModel) -> Seq<char> {
    match unwrap_model(g, "IBusText"@) {
        Unwrapped::Payload(p) => match p {
            GModel::Str(s) => s,
            GModel::Struct(f) => if f.len() > 0 && f[0] is Str {
                f[0]->Str_0
            } else {
                Seq::empty()
            },
            _ => Seq::empty(),
        },
        _ => Seq::empty(),
    }
}

/// The text of an `IBusText` value sent as surrounding text (empty when the
/// value holds none).
pub fn surrounding_text(value: &GValue) -> (s: String)
    requires
        !(unwrap_model(value@, "IBusText"@) is Empty),
    ensures
        s@ == surrounding_text_of(value@),
{
    match unwrap_serializable(value, "IBusText") {
        Ok(GValue::Str(s)) => s,
        Ok(GValue::Struct(fields)) => {
            proof {
                crate::gvalue::lemma_items_model(&fields);
            }
            if fields.len() > 0 {
                match &fields[0] {
                    GValue::Str(s) => s.clone(),
                    _ => String::new(),
                }
            } else {
                String::new()
            }
        },
        _ => String::new(),
    }
}

} // verus!
