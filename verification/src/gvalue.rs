use vstd::prelude::*;

use crate::error::{concat_strs, concat_views, Error};

verus! {

broadcast use vstd::std_specs::vec::axiom_vec_index_decreases;

/// A GVariant value as the IBus wire format uses it.
///
/// Arrays are arrays of variants (`av`); dictionaries are string-to-variant
/// dictionaries (`a{sv}`) whose entries are two-field structures.
#[derive(Debug)]
pub enum GValue {
    Bool(bool),
    I32(i32),
    U32(u32),
    I64(i64),
    Str(String),
    Variant(Box<GValue>),
    Array(Vec<GValue>),
    Dict(Vec<GValue>),
    Struct(Vec<GValue>),
}

/// The mathematical content of a [`GValue`].
pub enum GModel {
    Bool(bool),
    I32(i32),
    U32(u32),
    I64(i64),
    Str(Seq<char>),
    Variant(Box<GModel>),
    Array(Seq<GModel>),
    Dict(Seq<GModel>),
    Struct(Seq<GModel>),
}

/// The model of a value.
pub open spec fn gmodel(v: &GValue) -> GModel
    decreases v, 0int,
{
    match v {
        GValue::Bool(b) => GModel::Bool(*b),
        GValue::I32(n) => GModel::I32(*n),
        GValue::U32(n) => GModel::U32(*n),
        GValue::I64(n) => GModel::I64(*n),
        GValue::Str(s) => GModel::Str(s@),
        GValue::Variant(b) => GModel::Variant(Box::new(gmodel(b))),
        GValue::Array(items) => GModel::Array(gmodels(items, items.len() as int)),
        GValue::Dict(items) => GModel::Dict(gmodels(items, items.len() as int)),
        GValue::Struct(items) => GModel::Struct(gmodels(items, items.len() as int)),
    }
}

/// The models of the first `n` values of a vector.
pub open spec fn gmodels(items: &Vec<GValue>, n: int) -> Seq<GModel>
    decreases items, n,
{
    if n <= 0 || n > items.len() {
        Seq::empty()
    } else {
        gmodels(items, n - 1).push(gmodel(&items[n - 1]))
    }
}

impl View for GValue {
    type V = GModel;

    open spec fn view(&self) -> GModel {
        gmodel(self)
    }
}

/// `gmodels` is the element-wise model of the whole vector.
pub proof fn lemma_gmodels(items: &Vec<GValue>, n: int)
    requires
        0 <= n <= items.len(),
    ensures
        gmodels(items, n).len() == n,
        forall|i: int| 0 <= i < n ==> #[trigger] gmodels(items, n)[i] == gmodel(&items[i]),
    decreases n,
{
    if n > 0 {
        lemma_gmodels(items, n - 1);
    }
}

/// The models of all values of a vector.
pub open spec fn models_of(items: Seq<GValue>) -> Seq<GModel> {
    items.map_values(|v: GValue| v@)
}

/// The model of an array value is the sequence of its elements' models.
pub proof fn lemma_items_model(items: &Vec<GValue>)
    ensures
        gmodels(items, items.len() as int) == models_of(items@),
{
    lemma_gmodels(items, items.len() as int);
    assert(gmodels(items, items.len() as int) =~= models_of(items@));
}

/// Models of a sequence extended by one value.
pub proof fn lemma_models_push(s: Seq<GValue>, x: GValue)
    ensures
        models_of(s.push(x)) == models_of(s).push(x@),
{
    assert(models_of(s.push(x)) =~= models_of(s).push(x@));
}

/// Models of a concatenation.
pub proof fn lemma_models_add(a: Seq<GValue>, b: Seq<GValue>)
    ensures
        models_of(a + b) == models_of(a) + models_of(b),
{
    assert(models_of(a + b) =~= models_of(a) + models_of(b));
}

/// Models of a subrange.
pub proof fn lemma_models_subrange(a: Seq<GValue>, i: int, j: int)
    requires
        0 <= i <= j <= a.len(),
    ensures
        models_of(a.subrange(i, j)) == models_of(a).subrange(i, j),
{
    assert(models_of(a.subrange(i, j)) =~= models_of(a).subrange(i, j));
}

/// Build an array value from the given elements.
pub fn make_array(items: Vec<GValue>) -> (v: GValue)
    ensures
        v@ == GModel::Array(models_of(items@)),
{
    proof {
        lemma_items_model(&items);
    }
    GValue::Array(items)
}

/// Build a structure value from the given fields.
pub fn make_struct(items: Vec<GValue>) -> (v: GValue)
    ensures
        v@ == GModel::Struct(models_of(items@)),
{
    proof {
        lemma_items_model(&items);
    }
    GValue::Struct(items)
}

/// Build a dictionary value from the given entries.
pub fn make_dict(items: Vec<GValue>) -> (v: GValue)
    ensures
        v@ == GModel::Dict(models_of(items@)),
{
    proof {
        lemma_items_model(&items);
    }
    GValue::Dict(items)
}

/// Wrap a value in a variant.
pub fn make_variant(inner: GValue) -> (v: GValue)
    ensures
        v@ == GModel::Variant(Box::new(inner@)),
{
    GValue::Variant(Box::new(inner))
}

/// A copy of a value.
pub fn clone_value(v: &GValue) -> (r: GValue)
    ensures
        r@ == v@,
    decreases v,
{
    match v {
        GValue::Bool(b) => GValue::Bool(*b),
        GValue::I32(n) => GValue::I32(*n),
        GValue::U32(n) => GValue::U32(*n),
        GValue::I64(n) => GValue::I64(*n),
        GValue::Str(s) => GValue::Str(s.clone()),
        GValue::Variant(b) => GValue::Variant(Box::new(clone_value(b))),
        GValue::Array(items) => {
            proof {
                lemma_items_model(items);
            }
            let c = clone_values(items);
            make_array(c)
        },
        GValue::Dict(items) => {
            proof {
                lemma_items_model(items);
            }
            let c = clone_values(items);
            make_dict(c)
        },
        GValue::Struct(items) => {
            proof {
                lemma_items_model(items);
            }
            let c = clone_values(items);
            make_struct(c)
        },
    }
}

/// Copies of all values of a vector.
pub fn clone_values(items: &Vec<GValue>) -> (r: Vec<GValue>)
    ensures
        models_of(r@) == models_of(items@),
    decreases items,
{
    let mut out: Vec<GValue> = Vec::new();
    let mut i: usize = 0;
    while i < items.len()
        invariant
            i <= items@.len(),
            models_of(out@) =~= models_of(items@.subrange(0, i as int)),
        decreases items@.len() - i,
    {
        let c = clone_value(&items[i]);
        proof {
            lemma_models_push(out@, c);
            assert(items@.subrange(0, i as int + 1) =~= items@.subrange(0, i as int).push(items@[i as int]));
            lemma_models_push(items@.subrange(0, i as int), items@[i as int]);
        }
        out.push(c);
        i = i + 1;
    }
    assert(items@.subrange(0, items@.len() as int) =~= items@);
    out
}

impl Clone for GValue {
    fn clone(&self) -> (r: GValue)
        ensures
            r@ == self@,
    {
        clone_value(self)
    }
}

/// The value with all enclosing variant layers removed.
pub open spec fn strip_variants(g: GModel) -> GModel
    decreases g,
{
    match g {
        GModel::Variant(b) => strip_variants(*b),
        _ => g,
    }
}

/// Remove all enclosing variant layers.
pub fn strip_variants_ref(v: &GValue) -> (r: &GValue)
    ensures
        r@ == strip_variants(v@),
    decreases v,
{
    match v {
        GValue::Variant(b) => strip_variants_ref(b),
        _ => v,
    }
}

/// Remove one variant layer, if there is one (the way nested serializable
/// fields are read).
pub open spec fn unvariant(g: GModel) -> GModel {
    match g {
        GModel::Variant(b) => *b,
        _ => g,
    }
}

/// Remove one variant layer, if there is one.
pub fn unvariant_ref(v: &GValue) -> (r: &GValue)
    ensures
        r@ == unvariant(v@),
{
    match v {
        GValue::Variant(b) => &**b,
        _ => v,
    }
}

/// The IBusSerializable envelope: class name, empty attachment dictionary,
/// then the fields of `inner` (or `inner` itself when it is no structure).
pub open spec fn wrap_model(class_name: Seq<char>, inner: GModel) -> GModel {
    let head = seq![GModel::Str(class_name), GModel::Dict(Seq::empty())];
    match inner {
        GModel::Struct(fields) => GModel::Struct(head + fields),
        _ => GModel::Struct(head.push(inner)),
    }
}

/// Outcome of opening an IBusSerializable envelope.
pub enum Unwrapped {
    /// The payload: the only field after the envelope, or a structure of all of them.
    Payload(GModel),
    /// The envelope names another class.
    WrongClass(Seq<char>),
    /// The value is no envelope.
    Malformed,
    /// The envelope names the class but holds no field: no payload structure
    /// can be built from it, and reading it does not return.
    Empty,
}

/// Open an IBusSerializable envelope, expecting the given class.
pub open spec fn unwrap_model(value: GModel, class_name: Seq<char>) -> Unwrapped {
    match strip_variants(value) {
        GModel::Struct(fields) => {
            if fields.len() >= 2 && fields[0] is Str {
                let name = fields[0]->Str_0;
                if name == class_name {
                    if fields.len() == 3 {
                        Unwrapped::Payload(fields[2])
                    } else if fields.len() == 2 {
                        Unwrapped::Empty
                    } else {
                        Unwrapped::Payload(GModel::Struct(fields.subrange(2, fields.len() as int)))
                    }
                } else {
                    Unwrapped::WrongClass(name)
                }
            } else {
                Unwrapped::Malformed
            }
        },
        _ => Unwrapped::Malformed,
    }
}

/// The message of a class mismatch.
pub open spec fn wrong_class_message(expected: Seq<char>, got: Seq<char>) -> Seq<char> {
    "Expected class "@ + expected + ", got "@ + got
}

/// The message of a value that is no envelope.
pub open spec fn malformed_message(expected: Seq<char>) -> Seq<char> {
    "Invalid IBusSerializable value structure (expected "@ + expected + ")"@
}

/// Wrap a value in the IBusSerializable envelope of the given class.
pub fn wrap_serializable(class_name: &str, inner: GValue) -> (v: GValue)
    ensures
        v@ == wrap_model(class_name@, inner@),
{
    let mut fields: Vec<GValue> = Vec::new();
    fields.push(GValue::Str(class_name.to_owned()));
    fields.push(make_dict(Vec::new()));
    let ghost head = models_of(fields@);
    let ghost im = inner@;
    proof {
        assert(models_of(Seq::<GValue>::empty()) =~= Seq::<GModel>::empty());
        assert(head =~= seq![GModel::Str(class_name@), GModel::Dict(Seq::empty())]);
    }
    match inner {
        GValue::Struct(rest0) => {
            let mut rest = rest0;
            proof {
                lemma_items_model(&rest);
                assert(im == GModel::Struct(models_of(rest@)));
            }
            let ghost rest_seq = rest@;
            let ghost first = fields@;
            fields.append(&mut rest);
            proof {
                lemma_models_add(first, rest_seq);
            }
            let v = make_struct(fields);
            proof {
                assert(fields@ == first + rest_seq);
                assert(v@ == GModel::Struct(head + models_of(rest_seq)));
                assert(wrap_model(class_name@, im) == GModel::Struct(head + models_of(rest_seq)));
                assert(v@ == wrap_model(class_name@, im));
                assert(im == inner@);
            }
            v
        },
        other => {
            let ghost om = other@;
            fields.push(other);
            let v = make_struct(fields);
            proof {
                assert(models_of(Seq::<GValue>::empty()) =~= Seq::<GModel>::empty());
                assert(models_of(fields@) =~= seq![GModel::Str(class_name@), GModel::Dict(Seq::empty()), om]);
                assert(!(om is Struct));
                assert(seq![GModel::Str(class_name@), GModel::Dict(Seq::empty())].push(om) =~= seq![GModel::Str(class_name@), GModel::Dict(Seq::empty()), om]);
                assert(v@ == wrap_model(class_name@, om));
            }
            v
        },
    }
}

/// Whether a value is an envelope of the given class with no field, which
/// [`unwrap_serializable`] cannot be asked to open.
pub fn envelope_is_empty(value: &GValue, class_name: &str) -> (b: bool)
    ensures
        b == (unwrap_model(value@, class_name@) is Empty),
{
    let current = strip_variants_ref(value);
    if let GValue::Struct(fields) = current {
        proof {
            lemma_items_model(fields);
        }
        if fields.len() == 2 {
            if let GValue::Str(name) = &fields[0] {
                return *name == class_name.to_owned();
            }
        }
    }
    false
}

/// Open an IBusSerializable envelope, expecting the given class; the result
/// is the payload, or an error naming the mismatch.
pub fn unwrap_serializable(value: &GValue, expected_class: &str) -> (r: Result<GValue, Error>)
    requires
        !(unwrap_model(value@, expected_class@) is Empty),
    ensures
        match unwrap_model(value@, expected_class@) {
            Unwrapped::Payload(p) => r matches Ok(v) && v@ == p,
            Unwrapped::WrongClass(got) => r matches Err(Error::Connection(m)) && m@ == wrong_class_message(expected_class@, got),
            Unwrapped::Malformed => r matches Err(Error::Connection(m)) && m@ == malformed_message(expected_class@),
            Unwrapped::Empty => false,
        },
{
    let current = strip_variants_ref(value);
    if let GValue::Struct(fields) = current {
        proof {
            lemma_items_model(fields);
        }
        if fields.len() >= 2 {
            if let GValue::Str(class_name) = &fields[0] {
                let expected = expected_class.to_owned();
                if *class_name == expected {
                    if fields.len() == 3 {
                        return Ok(clone_value(&fields[2]));
                    } else {
                        let mut rest: Vec<GValue> = Vec::new();
                        let mut i: usize = 2;
                        proof {
                            assert(models_of(rest@) =~= models_of(fields@.subrange(2, 2)));
                        }
                        while i < fields.len()
                            invariant
                                2 <= i <= fields@.len(),
                                models_of(rest@) == models_of(fields@.subrange(2, i as int)),
                            decreases fields@.len() - i,
                        {
                            let c = clone_value(&fields[i]);
                            proof {
                                lemma_models_push(rest@, c);
                                assert(fields@.subrange(2, i as int + 1) =~= fields@.subrange(2, i as int).push(fields@[i as int]));
                                lemma_models_push(fields@.subrange(2, i as int), fields@[i as int]);
                            }
                            rest.push(c);
                            i = i + 1;
                        }
                        let v = make_struct(rest);
                        proof {
                            lemma_models_subrange(fields@, 2, fields@.len() as int);
                        }
                        return Ok(v);
                    }
                } else {
                    let parts = vec!["Expected class ", expected_class, ", got ", class_name.as_str()];
                    let m = concat_strs(&parts);
                    proof {
                        reveal_with_fuel(concat_views, 5);
                        assert(parts@.drop_last() =~= seq!["Expected class ", expected_class, ", got "]);
                        assert(parts@.drop_last().drop_last() =~= seq!["Expected class ", expected_class]);
                        assert(parts@.drop_last().drop_last().drop_last() =~= seq!["Expected class "]);
                        assert(parts@.drop_last().drop_last().drop_last().drop_last() =~= Seq::<&str>::empty());
                    }
                    return Err(Error::Connection(m));
                }
            }
        }
    }
    let parts = vec!["Invalid IBusSerializable value structure (expected ", expected_class, ")"];
    let m = concat_strs(&parts);
    proof {
        reveal_with_fuel(concat_views, 4);
        assert(parts@.drop_last() =~= seq!["Invalid IBusSerializable value structure (expected ", expected_class]);
        assert(parts@.drop_last().drop_last() =~= seq!["Invalid IBusSerializable value structure (expected "]);
        assert(parts@.drop_last().drop_last().drop_last() =~= Seq::<&str>::empty());
    }
    Err(Error::Connection(m))
}

/// Outcome of decoding a wire value: a decoded model, a reported error, or a
/// value on which decoding does not return (an envelope of the expected
/// class with no field).
pub enum Outcome<T> {
    Done(T),
    Fail(Seq<char>),
    Abort,
}

/// The outcome of an envelope that does not open: the mismatch reported as
/// [`unwrap_serializable`] reports it, or no return for an empty envelope.
pub open spec fn envelope_failure<T>(u: Unwrapped, class_name: Seq<char>) -> Outcome<T> {
    match u {
        Unwrapped::WrongClass(got) => Outcome::Fail(wrong_class_message(class_name, got)),
        Unwrapped::Empty => Outcome::Abort,
        _ => Outcome::Fail(malformed_message(class_name)),
    }
}

/// Decode a sequence of values one after the other with `f`; the first
/// element that does not decode decides the outcome.
pub open spec fn decode_seq<T>(items: Seq<GModel>, f: spec_fn(GModel) -> Outcome<T>) -> Outcome<Seq<T>>
    decreases items.len(),
{
    if items.len() == 0 {
        Outcome::Done(Seq::empty())
    } else {
        match decode_seq(items.drop_last(), f) {
            Outcome::Done(prefix) => match f(items.last()) {
                Outcome::Done(x) => Outcome::Done(prefix.push(x)),
                Outcome::Fail(m) => Outcome::Fail(m),
                Outcome::Abort => Outcome::Abort,
            },
            Outcome::Fail(m) => Outcome::Fail(m),
            Outcome::Abort => Outcome::Abort,
        }
    }
}

/// Once a prefix of a sequence fails to decode, the whole sequence decodes
/// to the same outcome.
pub proof fn lemma_decode_seq_prefix<T>(items: Seq<GModel>, f: spec_fn(GModel) -> Outcome<T>, i: int)
    requires
        0 <= i <= items.len(),
        !(decode_seq(items.subrange(0, i), f) is Done),
    ensures
        decode_seq(items, f) == decode_seq(items.subrange(0, i), f),
    decreases items.len() - i,
{
    if i < items.len() {
        assert(items.drop_last().subrange(0, i) =~= items.subrange(0, i));
        lemma_decode_seq_prefix(items.drop_last(), f, i);
    } else {
        assert(items.subrange(0, i) =~= items);
    }
}

/// Decoding one more element of a sequence.
pub proof fn lemma_decode_seq_step<T>(items: Seq<GModel>, f: spec_fn(GModel) -> Outcome<T>, i: int)
    requires
        0 <= i < items.len(),
    ensures
        decode_seq(items.subrange(0, i + 1), f) == (match decode_seq(items.subrange(0, i), f) {
            Outcome::Done(prefix) => match f(items[i]) {
                Outcome::Done(x) => Outcome::Done(prefix.push(x)),
                Outcome::Fail(m) => Outcome::Fail(m),
                Outcome::Abort => Outcome::Abort,
            },
            Outcome::Fail(m) => Outcome::Fail(m),
            Outcome::Abort => Outcome::Abort,
        }),
{
    assert(items.subrange(0, i + 1).drop_last() =~= items.subrange(0, i));
}

/// Decoding the encodings of all elements of a sequence gives the sequence back.
pub proof fn lemma_decode_seq_encoded<T>(s: Seq<T>, enc: spec_fn(T) -> GModel, f: spec_fn(GModel) -> Outcome<T>)
    requires
        forall|x: T| #[trigger] f(enc(x)) == Outcome::Done(x),
    ensures
        decode_seq(s.map_values(enc), f) == Outcome::Done(s),
    decreases s.len(),
{
    if s.len() > 0 {
        lemma_decode_seq_encoded(s.drop_last(), enc, f);
        assert(s.map_values(enc).drop_last() =~= s.drop_last().map_values(enc));
        assert(s.drop_last().push(s.last()) =~= s);
    } else {
        assert(s.map_values(enc) =~= Seq::<GModel>::empty());
        assert(s =~= Seq::<T>::empty());
    }
}

/// Wrap a model in a variant.
pub open spec fn variant_of(g: GModel) -> GModel {
    GModel::Variant(Box::new(g))
}

/// Nesting depth of a value.
pub open spec fn gheight(g: GModel) -> nat
    decreases g, 1int,
{
    match g {
        GModel::Variant(b) => 1 + gheight(*b),
        GModel::Array(items) => 1 + gheights(items),
        GModel::Dict(items) => 1 + gheights(items),
        GModel::Struct(items) => 1 + gheights(items),
        _ => 0,
    }
}

/// Largest nesting depth among a sequence of values.
pub open spec fn gheights(items: Seq<GModel>) -> nat
    decreases items, 0int,
{
    if items.len() == 0 {
        0
    } else {
        let a = gheights(items.drop_last());
        let b = gheight(items.last());
        if a >= b { a } else { b }
    }
}

/// Each element of a sequence is at most as deep as the sequence.
pub proof fn lemma_gheights_elem(items: Seq<GModel>, i: int)
    requires
        0 <= i < items.len(),
    ensures
        gheight(items[i]) <= gheights(items),
    decreases items.len(),
{
    if i < items.len() - 1 {
        lemma_gheights_elem(items.drop_last(), i);
    }
}

/// A subrange of a sequence is at most as deep as the sequence.
pub proof fn lemma_gheights_subrange(items: Seq<GModel>, a: int, b: int)
    requires
        0 <= a <= b <= items.len(),
    ensures
        gheights(items.subrange(a, b)) <= gheights(items),
    decreases b - a,
{
    if a < b {
        let sub = items.subrange(a, b);
        assert(sub.drop_last() =~= items.subrange(a, b - 1));
        lemma_gheights_subrange(items, a, b - 1);
        lemma_gheights_elem(items, b - 1);
    }
}

/// Removing variant layers does not deepen a value.
pub proof fn lemma_gheight_strip(g: GModel)
    ensures
        gheight(strip_variants(g)) <= gheight(g),
        gheight(unvariant(g)) <= gheight(g),
    decreases g,
{
    if let GModel::Variant(b) = g {
        lemma_gheight_strip(*b);
    }
}

/// The payload of an envelope is no deeper than the envelope, and each
/// field of a structure payload is shallower.
pub proof fn lemma_gheight_payload(g: GModel, class_name: Seq<char>)
    ensures
        unwrap_model(g, class_name) matches Unwrapped::Payload(p) ==> gheight(p) <= gheight(g),
        unwrap_model(g, class_name) matches Unwrapped::Payload(GModel::Struct(f)) ==> forall|i: int|
            0 <= i < f.len() ==> #[trigger] gheight(f[i]) < gheight(g),
{
    lemma_gheight_strip(g);
    if let GModel::Struct(fields) = strip_variants(g) {
        if fields.len() >= 3 {
            assert(gheight(strip_variants(g)) == 1 + gheights(fields));
            lemma_gheights_elem(fields, 2);
            lemma_gheights_subrange(fields, 2, fields.len() as int);
            let f = fields.subrange(2, fields.len() as int);
            assert forall|i: int| 0 <= i < f.len() implies #[trigger] gheight(f[i]) < gheight(g) by {
                lemma_gheights_elem(f, i);
            }
            if let GModel::Struct(f2) = fields[2] {
                assert forall|i: int| 0 <= i < f2.len() implies #[trigger] gheight(f2[i]) < gheight(g) by {
                    lemma_gheights_elem(f2, i);
                }
            }
        }
    }
}

} // verus!
