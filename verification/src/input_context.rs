use vstd::prelude::*;

use crate::key::has_flags;

verus! {

/// IBus input-context capability flags.
#[derive(Debug, Clone, Copy, PartialEq, Eq, Structural, Hash)]
pub struct Caps {
    bits: u32,
}

impl View for Caps {
    type V = u32;

    closed spec fn view(&self) -> u32 {
        self.bits
    }
}

impl Caps {
    /// Client supports surrounding text.
    pub fn SURROUNDING() -> (f: Caps)
        ensures
            f@ == 1,
    {
        Caps { bits: 1 }
    }

    /// Client supports surrounding text with selection.
    pub fn SURROUNDING_SELECTION() -> (f: Caps)
        ensures
            f@ == 2,
    {
        Caps { bits: 2 }
    }

    /// Client supports preedit text with attributes.
    pub fn PREEDIT_ATTR() -> (f: Caps)
        ensures
            f@ == 4,
    {
        Caps { bits: 4 }
    }

    /// Client supports auxiliary text.
    pub fn AUX() -> (f: Caps)
        ensures
            f@ == 8,
    {
        Caps { bits: 8 }
    }

    /// Client supports the lookup table.
    pub fn LOOKUP_TABLE() -> (f: Caps)
        ensures
            f@ == 0x10,
    {
        Caps { bits: 0x10 }
    }

    /// Client supports content type hints.
    pub fn CONTENT_HINT() -> (f: Caps)
        ensures
            f@ == 0x20,
    {
        Caps { bits: 0x20 }
    }

    /// Client supports content purpose.
    pub fn CONTENT_PURPOSE() -> (f: Caps)
        ensures
            f@ == 0x40,
    {
        Caps { bits: 0x40 }
    }

    /// Client supports deleting surrounding text.
    pub fn DELETE_SURROUNDING() -> (f: Caps)
        ensures
            f@ == 0x80,
    {
        Caps { bits: 0x80 }
    }

    /// No flag.
    pub fn empty() -> (f: Caps)
        ensures
            f@ == 0,
    {
        Caps { bits: 0 }
    }

    /// Every known flag.
    pub fn all() -> (f: Caps)
        ensures
            f@ == 0xff,
    {
        Caps { bits: 0xff }
    }

    /// The raw bit mask.
    pub fn bits(self) -> (b: u32)
        ensures
            b == self@,
    {
        self.bits
    }

    /// The flags of `bits`, dropping bits that name no known flag.
    pub fn from_bits_truncate(bits: u32) -> (f: Caps)
        ensures
            f@ == bits & 0xff,
    {
        Caps { bits: bits & 0xff }
    }

    /// Whether every flag of `other` is set.
    pub fn contains(self, other: Caps) -> (b: bool)
        ensures
            b == has_flags(self@, other@),
    {
        self.bits & other.bits == other.bits
    }
}

impl vstd::std_specs::ops::BitOrSpecImpl for Caps {
    open spec fn obeys_bitor_spec() -> bool {
        false
    }

    open spec fn bitor_req(self, rhs: Caps) -> bool {
        true
    }

    open spec fn bitor_spec(self, rhs: Caps) -> Caps {
        self
    }
}

impl core::ops::BitOr for Caps {
    type Output = Caps;

    /// The union of two flag sets.
    fn bitor(self, rhs: Caps) -> (r: Caps)
        ensures
            r@ == self@ | rhs@,
    {
        Caps { bits: self.bits | rhs.bits }
    }
}

/// IBus input hint flags.
#[derive(Debug, Clone, Copy, PartialEq, Eq, Structural, Hash)]
pub struct Hint {
    bits: u32,
}

impl View for Hint {
    type V = u32;

    closed spec fn view(&self) -> u32 {
        self.bits
    }
}

impl Hint {
    /// No hints.
    pub fn NONE() -> (f: Hint)
        ensures
            f@ == 0,
    {
        Hint { bits: 0 }
    }

    /// Do not use auto-caps.
    pub fn NO_AUTO_CAPS() -> (f: Hint)
        ensures
            f@ == 1,
    {
        Hint { bits: 1 }
    }

    /// Do not use auto-correction.
    pub fn NO_AUTO_CORRECTION() -> (f: Hint)
        ensures
            f@ == 2,
    {
        Hint { bits: 2 }
    }

    /// Do not use predictive input.
    pub fn NO_PREDICTIVE() -> (f: Hint)
        ensures
            f@ == 4,
    {
        Hint { bits: 4 }
    }

    /// Use lowercase.
    pub fn LOWERCASE() -> (f: Hint)
        ensures
            f@ == 8,
    {
        Hint { bits: 8 }
    }

    /// Use uppercase.
    pub fn UPPERCASE() -> (f: Hint)
        ensures
            f@ == 0x10,
    {
        Hint { bits: 0x10 }
    }

    /// Use title case.
    pub fn TITLECASE() -> (f: Hint)
        ensures
            f@ == 0x20,
    {
        Hint { bits: 0x20 }
    }

    /// Hide input (e.g. a password).
    pub fn HIDDEN_TEXT() -> (f: Hint)
        ensures
            f@ == 0x40,
    {
        Hint { bits: 0x40 }
    }

    /// Do not learn new words.
    pub fn SENSITIVE_DATA() -> (f: Hint)
        ensures
            f@ == 0x80,
    {
        Hint { bits: 0x80 }
    }

    /// Completion is enabled.
    pub fn COMPLETION() -> (f: Hint)
        ensures
            f@ == 0x100,
    {
        Hint { bits: 0x100 }
    }

    /// No flag.
    pub fn empty() -> (f: Hint)
        ensures
            f@ == 0,
    {
        Hint { bits: 0 }
    }

    /// Every known flag.
    pub fn all() -> (f: Hint)
        ensures
            f@ == 0x1ff,
    {
        Hint { bits: 0x1ff }
    }

    /// The raw bit mask.
    pub fn bits(self) -> (b: u32)
        ensures
            b == self@,
    {
        self.bits
    }

    /// The flags of `bits`, dropping bits that name no known flag.
    pub fn from_bits_truncate(bits: u32) -> (f: Hint)
        ensures
            f@ == bits & 0x1ff,
    {
        Hint { bits: bits & 0x1ff }
    }

    /// Whether every flag of `other` is set.
    pub fn contains(self, other: Hint) -> (b: bool)
        ensures
            b == has_flags(self@, other@),
    {
        self.bits & other.bits == other.bits
    }
}

impl vstd::std_specs::ops::BitOrSpecImpl for Hint {
    open spec fn obeys_bitor_spec() -> bool {
        false
    }

    open spec fn bitor_req(self, rhs: Hint) -> bool {
        true
    }

    open spec fn bitor_spec(self, rhs: Hint) -> Hint {
        self
    }
}

impl core::ops::BitOr for Hint {
    type Output = Hint;

    /// The union of two flag sets.
    fn bitor(self, rhs: Hint) -> (r: Hint)
        ensures
            r@ == self@ | rhs@,
    {
        Hint { bits: self.bits | rhs.bits }
    }
}

/// IBus input purpose, numbered from zero in declaration order.
#[derive(Debug, Clone, Copy, PartialEq, Eq, Structural, Hash)]
pub enum Purpose {
    /// Normal text input.
    Normal,
    /// Alpha-numeric input.
    Alpha,
    /// Name input.
    Name,
    /// Telephone number input.
    Number,
    /// PIN input.
    Pin,
    /// E-mail address input.
    Email,
    /// URL input.
    Url,
    /// Password input.
    Password,
    /// Caption input.
    Caption,
}

/// The protocol number of an input purpose.
pub open spec fn purpose_code(p: Purpose) -> u32 {
    match p {
        Purpose::Normal => 0,
        Purpose::Alpha => 1,
        Purpose::Name => 2,
        Purpose::Number => 3,
        Purpose::Pin => 4,
        Purpose::Email => 5,
        Purpose::Url => 6,
        Purpose::Password => 7,
        Purpose::Caption => 8,
    }
}

impl Purpose {
    /// The protocol number of this purpose.
    pub fn to_u32(self) -> (r: u32)
        ensures
            r == purpose_code(self),
    {
        match self {
            Purpose::Normal => 0,
            Purpose::Alpha => 1,
            Purpose::Name => 2,
            Purpose::Number => 3,
            Purpose::Pin => 4,
            Purpose::Email => 5,
            Purpose::Url => 6,
            Purpose::Password => 7,
            Purpose::Caption => 8,
        }
    }

    /// The purpose numbered `v`, or `None` for unknown numbers.
    pub fn from_u32(v: u32) -> (r: Option<Purpose>)
        ensures
            r is Some <==> v < 9,
            r matches Some(p) ==> purpose_code(p) == v,
    {
        match v {
            0 => Some(Purpose::Normal),
            1 => Some(Purpose::Alpha),
            2 => Some(Purpose::Name),
            3 => Some(Purpose::Number),
            4 => Some(Purpose::Pin),
            5 => Some(Purpose::Email),
            6 => Some(Purpose::Url),
            7 => Some(Purpose::Password),
            8 => Some(Purpose::Caption),
            _ => None,
        }
    }

    /// The purpose numbered `v`, normal when `v` names none.
    pub fn from_u32_or_normal(v: u32) -> (r: Purpose)
        ensures
            v < 9 ==> purpose_code(r) == v,
            v >= 9 ==> r == Purpose::Normal,
    {
        match Self::from_u32(v) {
            Some(p) => p,
            None => Purpose::Normal,
        }
    }
}

/// The purpose numbered `v`, normal when `v` names none.
pub open spec fn purpose_from(v: u32) -> Purpose {
    if v == 1 { Purpose::Alpha }
    else if v == 2 { Purpose::Name }
    else if v == 3 { Purpose::Number }
    else if v == 4 { Purpose::Pin }
    else if v == 5 { Purpose::Email }
    else if v == 6 { Purpose::Url }
    else if v == 7 { Purpose::Password }
    else if v == 8 { Purpose::Caption }
    else { Purpose::Normal }
}

impl vstd::std_specs::convert::FromSpecImpl<Purpose> for u32 {
    open spec fn obeys_from_spec() -> bool {
        true
    }

    open spec fn from_spec(p: Purpose) -> u32 {
        purpose_code(p)
    }
}

impl From<Purpose> for u32 {
    fn from(p: Purpose) -> (r: u32) {
        p.to_u32()
    }
}

impl vstd::std_specs::convert::FromSpecImpl<u32> for Purpose {
    open spec fn obeys_from_spec() -> bool {
        true
    }

    open spec fn from_spec(v: u32) -> Purpose {
        purpose_from(v)
    }
}

impl From<u32> for Purpose {
    fn from(v: u32) -> (r: Purpose) {
        Purpose::from_u32_or_normal(v)
    }
}

/// Converting a purpose to its number and back gives the same purpose.
pub proof fn law_purpose_code_roundtrip(p: Purpose)
    ensures
        purpose_from(purpose_code(p)) == p,
{
}

} // verus!
