use vstd::prelude::*;

verus! {

/// The views of a sequence of owned strings.
pub open spec fn strings_model(v: Seq<String>) -> Seq<Seq<char>> {
    v.map_values(|s: String| s@)
}

/// The views of a sequence of string slices.
pub open spec fn strs_model(v: Seq<&str>) -> Seq<Seq<char>> {
    v.map_values(|s: &str| s@)
}

/// The parts joined with `sep` between consecutive parts.
pub open spec fn join(parts: Seq<Seq<char>>, sep: Seq<char>) -> Seq<char>
    decreases parts.len(),
{
    if parts.len() == 0 {
        Seq::empty()
    } else if parts.len() == 1 {
        parts[0]
    } else {
        join(parts.drop_last(), sep) + sep + parts.last()
    }
}

/// The parts concatenated.
pub open spec fn concat_all(parts: Seq<Seq<char>>) -> Seq<char>
    decreases parts.len(),
{
    if parts.len() == 0 {
        Seq::empty()
    } else {
        concat_all(parts.drop_last()) + parts.last()
    }
}

/// Append a character to a string.
///
/// Trusted: `String::push`, which appends the given character to the end of
/// the string.
#[verifier::external_body]
pub(crate) fn string_push(s: &mut String, c: char)
    ensures
        final(s)@ == old(s)@.push(c),
{
    s.push(c)
}

/// Remove and return the last character of a string, if any.
///
/// Trusted: `String::pop`, which removes the last character and returns it,
/// or returns `None` (leaving the string unchanged) when the string is empty.
#[verifier::external_body]
pub(crate) fn string_pop(s: &mut String) -> (c: Option<char>)
    ensures
        old(s)@.len() == 0 ==> c is None && final(s)@ == old(s)@,
        old(s)@.len() > 0 ==> c == Some(old(s)@.last()) && final(s)@ == old(s)@.drop_last(),
{
    s.pop()
}

/// The character with the given code point, if there is one.
///
/// Trusted: `char::from_u32`, which returns `None` for surrogate code points
/// (0xD800 to 0xDFFF) and for numbers above 0x10FFFF, and otherwise the
/// character with that code point.
#[verifier::external_body]
pub(crate) fn char_from_u32(u: u32) -> (c: Option<char>)
    ensures
        c is Some <==> (u <= 0x10FFFF && !(0xD800 <= u <= 0xDFFF)),
        c matches Some(ch) ==> ch as u32 == u,
{
    char::from_u32(u)
}

/// Owned copies of string slices.
pub fn to_strings(v: &Vec<&str>) -> (r: Vec<String>)
    ensures
        strings_model(r@) == strs_model(v@),
{
    let mut out: Vec<String> = Vec::new();
    let mut i: usize = 0;
    while i < v.len()
        invariant
            i <= v@.len(),
            strings_model(out@) =~= strs_model(v@.subrange(0, i as int)),
        decreases v@.len() - i,
    {
        let s: &str = v[i];
        let o = s.to_owned();
        proof {
            assert(strings_model(out@.push(o)) =~= strings_model(out@).push(o@));
            assert(strs_model(v@.subrange(0, i as int + 1)) =~= strs_model(v@.subrange(0, i as int)).push(v@[i as int]@));
        }
        out.push(o);
        i = i + 1;
    }
    proof {
        assert(v@.subrange(0, v@.len() as int) =~= v@);
    }
    out
}

/// Copies of owned strings.
pub fn clone_strings(v: &Vec<String>) -> (r: Vec<String>)
    ensures
        strings_model(r@) == strings_model(v@),
{
    let mut out: Vec<String> = Vec::new();
    let mut i: usize = 0;
    while i < v.len()
        invariant
            i <= v@.len(),
            strings_model(out@) =~= strings_model(v@.subrange(0, i as int)),
        decreases v@.len() - i,
    {
        let o = v[i].clone();
        proof {
            assert(strings_model(out@.push(o)) =~= strings_model(out@).push(o@));
            assert(strings_model(v@.subrange(0, i as int + 1)) =~= strings_model(v@.subrange(0, i as int)).push(v@[i as int]@));
        }
        out.push(o);
        i = i + 1;
    }
    proof {
        assert(v@.subrange(0, v@.len() as int) =~= v@);
    }
    out
}

/// The strings joined with `sep` between consecutive strings.
pub fn join_strings(parts: &Vec<String>, sep: &str) -> (s: String)
    ensures
        s@ == join(strings_model(parts@), sep@),
{
    let mut s = String::new();
    let mut i: usize = 0;
    while i < parts.len()
        invariant
            i <= parts@.len(),
            s@ == join(strings_model(parts@.subrange(0, i as int)), sep@),
        decreases parts@.len() - i,
    {
        let ghost before = strings_model(parts@.subrange(0, i as int));
        let ghost after = strings_model(parts@.subrange(0, i as int + 1));
        proof {
            assert(after.drop_last() =~= before);
            assert(after.last() == parts@[i as int]@);
        }
        if i > 0 {
            s.append(sep);
        }
        s.append(parts[i].as_str());
        proof {
            if i == 0 {
                assert(after =~= seq![parts@[0]@]);
                assert(before =~= Seq::<Seq<char>>::empty());
            }
        }
        i = i + 1;
    }
    proof {
        assert(parts@.subrange(0, parts@.len() as int) =~= parts@);
    }
    s
}

/// The decimal digit character of a number below ten.
pub open spec fn digit_char(d: nat) -> char {
    if d == 0 { '0' }
    else if d == 1 { '1' }
    else if d == 2 { '2' }
    else if d == 3 { '3' }
    else if d == 4 { '4' }
    else if d == 5 { '5' }
    else if d == 6 { '6' }
    else if d == 7 { '7' }
    else if d == 8 { '8' }
    else { '9' }
}

/// The decimal representation of a number, without leading zeros.
pub open spec fn decimal(n: nat) -> Seq<char>
    decreases n,
{
    if n < 10 {
        seq![digit_char(n)]
    } else {
        decimal(n / 10).push(digit_char(n % 10))
    }
}

/// Append the decimal representation of `n` to a string.
pub fn push_decimal(s: &mut String, n: u32)
    ensures
        final(s)@ == old(s)@ + decimal(n as nat),
    decreases n,
{
    if n >= 10 {
        push_decimal(s, n / 10);
    }
    let d = n % 10;
    let c = if d == 0 { '0' }
        else if d == 1 { '1' }
        else if d == 2 { '2' }
        else if d == 3 { '3' }
        else if d == 4 { '4' }
        else if d == 5 { '5' }
        else if d == 6 { '6' }
        else if d == 7 { '7' }
        else if d == 8 { '8' }
        else { '9' };
    string_push(s, c);
    proof {
        if n < 10 {
            assert(old(s)@.push(c) =~= old(s)@ + seq![c]);
        } else {
            assert(old(s)@ + decimal(n as nat / 10) + seq![c] =~= old(s)@ + decimal(n as nat));
        }
    }
}

/// The decimal representation of `n`.
pub fn u32_to_decimal(n: u32) -> (s: String)
    ensures
        s@ == decimal(n as nat),
{
    let mut s = String::new();
    push_decimal(&mut s, n);
    s
}

} // verus!
