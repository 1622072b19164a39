//! Object paths of the engine factory and of the engines it creates.
use vstd::prelude::*;

use crate::strings::{decimal, push_decimal};

verus! {

/// The object path at which the engine factory is registered.
pub const FACTORY_PATH: &'static str = "/org/freedesktop/IBus/Factory";

/// The object path of the engine numbered `id`.
pub open spec fn engine_path_of(id: u32) -> Seq<char> {
    "/org/freedesktop/IBus/Engine/"@ + decimal(id as nat)
}

/// The object path of the engine numbered `id`: the engine prefix followed
/// by the number in decimal.
pub fn engine_path(id: u32) -> (p: String)
    ensures
        p@ == engine_path_of(id),
{
    let mut p = "/org/freedesktop/IBus/Engine/".to_owned();
    push_decimal(&mut p, id);
    p
}

} // verus!
