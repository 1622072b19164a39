use vstd::prelude::*;

verus! {

/// Errors returned by the library's own logic.
#[derive(Debug)]
pub enum Error {
    /// Component registration or manipulation failed.
    Component(String),
    /// Engine creation or invocation failed.
    Engine(String),
    /// A wire value did not have the expected shape, or a connection failed.
    Connection(String),
    /// IBus address resolution failed.
    Address(String),
    /// Operation attempted without an active IBus connection.
    NotConnected,
    /// Requested engine name was not found.
    EngineNotFound(String),
    /// An argument passed to an API function was invalid.
    InvalidArgument(String),
}

/// The human-readable message of an error.
pub open spec fn error_message(e: Error) -> Seq<char> {
    match e {
        Error::Component(m) => "Component error: "@ + m@,
        Error::Engine(m) => "Engine error: "@ + m@,
        Error::Connection(m) => "Connection error: "@ + m@,
        Error::Address(m) => "Address error: "@ + m@,
        Error::NotConnected => "Not connected to IBus daemon"@,
        Error::EngineNotFound(m) => "Engine not found: "@ + m@,
        Error::InvalidArgument(m) => "Invalid argument: "@ + m@,
    }
}

impl Error {
    /// The human-readable message of the error: its kind, then its detail.
    pub fn message(&self) -> (s: String)
        ensures
            s@ == error_message(*self),
    {
        let (prefix, detail) = match self {
            Error::Component(m) => ("Component error: ", m.as_str()),
            Error::Engine(m) => ("Engine error: ", m.as_str()),
            Error::Connection(m) => ("Connection error: ", m.as_str()),
            Error::Address(m) => ("Address error: ", m.as_str()),
            Error::NotConnected => ("Not connected to IBus daemon", ""),
            Error::EngineNotFound(m) => ("Engine not found: ", m.as_str()),
            Error::InvalidArgument(m) => ("Invalid argument: ", m.as_str()),
        };
        let mut s = prefix.to_owned();
        s.append(detail);
        proof {
            reveal_strlit("");
            assert(""@ =~= Seq::<char>::empty());
        }
        s
    }
}

/// Concatenate string slices into a new string.
pub fn concat_strs(parts: &Vec<&str>) -> (s: String)
    ensures
        s@ == concat_views(parts@),
{
    let mut s = String::new();
    let mut i: usize = 0;
    while i < parts.len()
        invariant
            i <= parts@.len(),
            s@ == concat_views(parts@.subrange(0, i as int)),
        decreases parts@.len() - i,
    {
        let part: &str = parts[i];
        s.append(part);
        proof {
            assert(parts@.subrange(0, i as int + 1).drop_last() =~= parts@.subrange(0, i as int));
        }
        i = i + 1;
    }
    proof {
        assert(parts@.subrange(0, parts@.len() as int) =~= parts@);
    }
    s
}

/// The concatenation of the views of a sequence of string slices.
pub open spec fn concat_views(parts: Seq<&str>) -> Seq<char>
    decreases parts.len(),
{
    if parts.len() == 0 {
        Seq::empty()
    } else {
        concat_views(parts.drop_last()) + parts.last()@
    }
}

} // verus!
