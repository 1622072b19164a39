use vstd::prelude::*;

pub mod keysym;

verus! {

/// Every modifier flag that [`ModifierType`] knows.
pub const MODIFIER_MASK: u32 = 0x4300_1fff;

/// Bitmask of keyboard modifier states in an IBus key event.
#[derive(Debug, Clone, Copy, PartialEq, Eq, Structural, Hash)]
pub struct ModifierType {
    bits: u32,
}

/// Whether every bit of `flag` is set in `bits`.
pub open spec fn has_flags(bits: u32, flag: u32) -> bool {
    bits & flag == flag
}

impl View for ModifierType {
    type V = u32;

    closed spec fn view(&self) -> u32 {
        self.bits
    }
}

/// Whether `bits` holds only flags that [`ModifierType`] knows.
pub open spec fn within_mask(bits: u32) -> bool {
    bits & MODIFIER_MASK == bits
}

/// Each named flag, no flag and every flag lie within the mask, and masking
/// and taking unions stay within it.
proof fn lemma_flags_within_mask()
    by (bit_vector)
    ensures
        within_mask(1) && within_mask(2) && within_mask(4) && within_mask(8),
        within_mask(16) && within_mask(32) && within_mask(64) && within_mask(128),
        within_mask(0x100) && within_mask(0x200) && within_mask(0x400) && within_mask(0x800),
        within_mask(0x1000) && within_mask(0x100_0000) && within_mask(0x200_0000),
        within_mask(0x4000_0000) && within_mask(0) && within_mask(MODIFIER_MASK),
        forall|b: u32| #[trigger] within_mask(b & MODIFIER_MASK),
        forall|a: u32, b: u32| within_mask(a) && within_mask(b) ==> #[trigger] within_mask(a | b),
{
}

impl ModifierType {
    /// Only known flags are ever set.
    #[verifier::type_invariant]
    spec fn known_flags_only(self) -> bool {
        within_mask(self.bits)
    }

    /// Shift key.
    pub fn SHIFT() -> (m: ModifierType)
        ensures
            m@ == 1,
    {
        proof {
            lemma_flags_within_mask();
        }
        ModifierType { bits: 1 }
    }

    /// Caps Lock.
    pub fn LOCK() -> (m: ModifierType)
        ensures
            m@ == 2,
    {
        proof {
            lemma_flags_within_mask();
        }
        ModifierType { bits: 2 }
    }

    /// Control key.
    pub fn CONTROL() -> (m: ModifierType)
        ensures
            m@ == 4,
    {
        proof {
            lemma_flags_within_mask();
        }
        ModifierType { bits: 4 }
    }

    /// Alt key (Mod1).
    pub fn MOD1() -> (m: ModifierType)
        ensures
            m@ == 8,
    {
        proof {
            lemma_flags_within_mask();
        }
        ModifierType { bits: 8 }
    }

    /// Num Lock (Mod2).
    pub fn MOD2() -> (m: ModifierType)
        ensures
            m@ == 16,
    {
        proof {
            lemma_flags_within_mask();
        }
        ModifierType { bits: 16 }
    }

    /// Mod3.
    pub fn MOD3() -> (m: ModifierType)
        ensures
            m@ == 32,
    {
        proof {
            lemma_flags_within_mask();
        }
        ModifierType { bits: 32 }
    }

    /// Super / Windows key (Mod4).
    pub fn MOD4() -> (m: ModifierType)
        ensures
            m@ == 64,
    {
        proof {
            lemma_flags_within_mask();
        }
        ModifierType { bits: 64 }
    }

    /// Mod5.
    pub fn MOD5() -> (m: ModifierType)
        ensures
            m@ == 128,
    {
        proof {
            lemma_flags_within_mask();
        }
        ModifierType { bits: 128 }
    }

    /// Mouse button 1.
    pub fn BUTTON1() -> (m: ModifierType)
        ensures
            m@ == 0x100,
    {
        proof {
            lemma_flags_within_mask();
        }
        ModifierType { bits: 0x100 }
    }

    /// Mouse button 2.
    pub fn BUTTON2() -> (m: ModifierType)
        ensures
            m@ == 0x200,
    {
        proof {
            lemma_flags_within_mask();
        }
        ModifierType { bits: 0x200 }
    }

    /// Mouse button 3.
    pub fn BUTTON3() -> (m: ModifierType)
        ensures
            m@ == 0x400,
    {
        proof {
            lemma_flags_within_mask();
        }
        ModifierType { bits: 0x400 }
    }

    /// Mouse button 4.
    pub fn BUTTON4() -> (m: ModifierType)
        ensures
            m@ == 0x800,
    {
        proof {
            lemma_flags_within_mask();
        }
        ModifierType { bits: 0x800 }
    }

    /// Mouse button 5.
    pub fn BUTTON5() -> (m: ModifierType)
        ensures
            m@ == 0x1000,
    {
        proof {
            lemma_flags_within_mask();
        }
        ModifierType { bits: 0x1000 }
    }

    /// The event was handled.
    pub fn HANDLED() -> (m: ModifierType)
        ensures
            m@ == 0x100_0000,
    {
        proof {
            lemma_flags_within_mask();
        }
        ModifierType { bits: 0x100_0000 }
    }

    /// Forward the event.
    pub fn FORWARD() -> (m: ModifierType)
        ensures
            m@ == 0x200_0000,
    {
        proof {
            lemma_flags_within_mask();
        }
        ModifierType { bits: 0x200_0000 }
    }

    /// The key was released (not pressed).
    pub fn RELEASE() -> (m: ModifierType)
        ensures
            m@ == 0x4000_0000,
    {
        proof {
            lemma_flags_within_mask();
        }
        ModifierType { bits: 0x4000_0000 }
    }

    /// No flag.
    pub fn empty() -> (m: ModifierType)
        ensures
            m@ == 0,
    {
        proof {
            lemma_flags_within_mask();
        }
        ModifierType { bits: 0 }
    }

    /// Every known flag.
    pub fn all() -> (m: ModifierType)
        ensures
            m@ == MODIFIER_MASK,
    {
        proof {
            lemma_flags_within_mask();
        }
        ModifierType { bits: MODIFIER_MASK }
    }

    /// The raw bit mask; it holds known flags only.
    pub fn bits(self) -> (b: u32)
        ensures
            b == self@,
            within_mask(b),
    {
        proof {
            use_type_invariant(&self);
        }
        self.bits
    }

    /// The flags of `bits`, dropping bits that name no known flag.
    pub fn from_bits_truncate(bits: u32) -> (m: ModifierType)
        ensures
            m@ == bits & MODIFIER_MASK,
    {
        proof {
            lemma_flags_within_mask();
        }
        ModifierType { bits: bits & MODIFIER_MASK }
    }

    /// Whether every flag of `other` is set.
    pub fn contains(self, other: ModifierType) -> (b: bool)
        ensures
            b == has_flags(self@, other@),
    {
        self.bits & other.bits == other.bits
    }

    /// Whether the Shift modifier is set.
    pub fn is_shift(self) -> (b: bool)
        ensures
            b == has_flags(self@, 1),
    {
        self.contains(Self::SHIFT())
    }

    /// Whether the Control modifier is set.
    pub fn is_control(self) -> (b: bool)
        ensures
            b == has_flags(self@, 4),
    {
        self.contains(Self::CONTROL())
    }

    /// Whether the Alt (Mod1) modifier is set.
    pub fn is_alt(self) -> (b: bool)
        ensures
            b == has_flags(self@, 8),
    {
        self.contains(Self::MOD1())
    }

    /// Whether the Super (Mod4) modifier is set.
    pub fn is_super(self) -> (b: bool)
        ensures
            b == has_flags(self@, 64),
    {
        self.contains(Self::MOD4())
    }

    /// Whether the RELEASE flag is set (key released rather than pressed).
    pub fn is_release(self) -> (b: bool)
        ensures
            b == has_flags(self@, 0x4000_0000),
    {
        self.contains(Self::RELEASE())
    }

    /// Whether the HANDLED flag is set.
    pub fn is_handled(self) -> (b: bool)
        ensures
            b == has_flags(self@, 0x100_0000),
    {
        self.contains(Self::HANDLED())
    }
}

impl vstd::std_specs::ops::BitOrSpecImpl for ModifierType {
    open spec fn obeys_bitor_spec() -> bool {
        false
    }

    open spec fn bitor_req(self, rhs: ModifierType) -> bool {
        true
    }

    open spec fn bitor_spec(self, rhs: ModifierType) -> ModifierType {
        self
    }
}

impl core::ops::BitOr for ModifierType {
    type Output = ModifierType;

    /// The union of two flag sets.
    fn bitor(self, rhs: ModifierType) -> (r: ModifierType)
        ensures
            r@ == self@ | rhs@,
    {
        proof {
            use_type_invariant(&self);
            use_type_invariant(&rhs);
            lemma_flags_within_mask();
        }
        ModifierType { bits: self.bits | rhs.bits }
    }
}

/// An IBus key event: keysym, hardware keycode and modifier state.
#[derive(Debug, Clone, Copy, PartialEq, Eq, Structural)]
pub struct KeyEvent {
    /// The X11 keysym value.
    pub keyval: u32,
    /// Hardware keycode.
    pub keycode: u32,
    /// Bitmask of [`ModifierType`] flags.
    pub state: u32,
}

/// Whether a keysym names a modifier key: Shift, Control, Caps Lock, Shift
/// Lock, Meta, Alt, Super or Hyper (the keysyms 0xffe1..=0xffee), ISO Level 3
/// Shift or ISO Next Group. Delete (0xffff) and other function keys are not.
pub open spec fn is_modifier_keyval(k: u32) -> bool {
    (keysym::Shift_L <= k && k <= keysym::Hyper_R) || k == keysym::ISO_Level3_Shift
        || k == keysym::ISO_Next_Group
}

impl KeyEvent {
    /// Create a new key event.
    pub fn new(keyval: u32, keycode: u32, state: u32) -> (e: KeyEvent)
        ensures
            e == (KeyEvent { keyval, keycode, state }),
    {
        KeyEvent { keyval, keycode, state }
    }

    /// The modifier flags of the state (unknown bits dropped).
    pub fn modifiers(&self) -> (m: ModifierType)
        ensures
            m@ == self.state & MODIFIER_MASK,
    {
        ModifierType::from_bits_truncate(self.state)
    }

    /// Replace the state with the given modifier flags.
    pub fn set_modifiers(&mut self, modifiers: ModifierType)
        ensures
            *final(self) == (KeyEvent { state: modifiers@, ..*old(self) }),
            within_mask(final(self).state),
    {
        self.state = modifiers.bits();
    }

    /// Whether this key is a modifier key (Shift, Control, Alt, etc.).
    pub fn is_modifier(&self) -> (b: bool)
        ensures
            b == is_modifier_keyval(self.keyval),
    {
        (keysym::Shift_L <= self.keyval && self.keyval <= keysym::Hyper_R) || self.keyval
            == keysym::ISO_Level3_Shift || self.keyval == keysym::ISO_Next_Group
    }
}

impl vstd::std_specs::convert::FromSpecImpl<(u32, u32, u32)> for KeyEvent {
    open spec fn obeys_from_spec() -> bool {
        true
    }

    open spec fn from_spec(v: (u32, u32, u32)) -> KeyEvent {
        KeyEvent { keyval: v.0, keycode: v.1, state: v.2 }
    }
}

impl From<(u32, u32, u32)> for KeyEvent {
    fn from(v: (u32, u32, u32)) -> (e: KeyEvent) {
        KeyEvent::new(v.0, v.1, v.2)
    }
}

/// Two flag sets with the same bits are the same.
pub proof fn law_modifier_view_injective(a: ModifierType, b: ModifierType)
    requires
        a@ == b@,
    ensures
        a == b,
{
}

/// Setting an event's modifiers and reading them back gives the same flags:
/// the state is the flags' bits, and the flags read from that state are the
/// ones that were set.
pub proof fn law_modifiers_after_set(e: KeyEvent, m: ModifierType)
    requires
        within_mask(m@),
    ensures
        (KeyEvent { state: m@, ..e }).state == m@,
        (KeyEvent { state: m@, ..e }).state & MODIFIER_MASK == m@,
        forall|r: ModifierType| r@ == (KeyEvent { state: m@, ..e }).state & MODIFIER_MASK ==> r == m,
{
}

/// The union of two flag sets contains each of them.
pub proof fn law_union_contains_both(a: u32, b: u32)
    ensures
        has_flags(a | b, a),
        has_flags(a | b, b),
{
    assert((a | b) & a == a) by (bit_vector);
    assert((a | b) & b == b) by (bit_vector);
}

} // verus!
