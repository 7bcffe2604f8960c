//! The set of connected gamepads.
use vstd::prelude::*;

verus! {

/// A set of gamepads, one bit for each.
#[derive(Debug, Clone, Copy, PartialEq, Eq, Structural)]
pub struct ActiveGamepads {
    pub bits: u16,
}

impl ActiveGamepads {
    /// No gamepad.
    pub open spec fn none() -> ActiveGamepads {
        ActiveGamepads { bits: 0 }
    }

    /// These gamepads and those of `other`.
    pub open spec fn with(self, other: ActiveGamepads) -> ActiveGamepads {
        ActiveGamepads { bits: self.bits | other.bits }
    }

    /// These gamepads, but not those of `other`.
    pub open spec fn without(self, other: ActiveGamepads) -> ActiveGamepads {
        ActiveGamepads { bits: self.bits & !other.bits }
    }

    /// All gamepads of `other` are among these.
    pub open spec fn has(self, other: ActiveGamepads) -> bool {
        self.bits & other.bits == other.bits
    }

    /// No gamepad of `other` is among these.
    pub open spec fn apart_from(self, other: ActiveGamepads) -> bool {
        self.bits & other.bits == 0
    }

    /// No gamepad.
    pub fn empty() -> (r: ActiveGamepads)
        ensures
            r == ActiveGamepads::none(),
    {
        ActiveGamepads { bits: 0 }
    }

    /// Adds gamepads.
    pub fn insert(&mut self, other: ActiveGamepads)
        ensures
            *final(self) == old(self).with(other),
    {
        self.bits = self.bits | other.bits;
    }

    /// Takes gamepads away.
    pub fn remove(&mut self, other: ActiveGamepads)
        ensures
            *final(self) == old(self).without(other),
    {
        self.bits = self.bits & !other.bits;
    }

    /// Whether all gamepads of `other` are among these.
    pub fn contains(&self, other: ActiveGamepads) -> (r: bool)
        ensures
            r == self.has(other),
    {
        self.bits & other.bits == other.bits
    }
}

/// A gamepad that was added is there, and adding it changes nothing for a gamepad
/// apart from it.
pub proof fn law_added_gamepad_is_there(
    gamepads: ActiveGamepads,
    added: ActiveGamepads,
    other: ActiveGamepads,
)
    ensures
        gamepads.with(added).has(added),
        gamepads.has(other) ==> gamepads.with(added).has(other),
        other.apart_from(added) ==> gamepads.with(added).has(other) == gamepads.has(other),
{
    let (g, a, o) = (gamepads.bits, added.bits, other.bits);
    assert((g | a) & a == a) by (bit_vector);
    assert(g & o == o ==> (g | a) & o == o) by (bit_vector);
    assert(o & a == 0 ==> (g | a) & o == g & o) by (bit_vector);
}

/// A gamepad that was removed is gone, and removing it changes nothing for a gamepad
/// apart from it.
pub proof fn law_removed_gamepad_is_gone(
    gamepads: ActiveGamepads,
    removed: ActiveGamepads,
    other: ActiveGamepads,
)
    ensures
        gamepads.without(removed).apart_from(removed),
        removed.bits != 0 ==> !gamepads.without(removed).has(removed),
        other.apart_from(removed) ==> gamepads.without(removed).has(other) == gamepads.has(other),
{
    let (g, m, o) = (gamepads.bits, removed.bits, other.bits);
    assert((g & !m) & m == 0) by (bit_vector);
    assert(o & m == 0 ==> (g & !m) & o == g & o) by (bit_vector);
}

/// Removing a gamepad undoes adding it, where it was not there before.
pub proof fn law_removing_undoes_adding(gamepads: ActiveGamepads, added: ActiveGamepads)
    requires
        gamepads.apart_from(added),
    ensures
        gamepads.with(added).without(added) == gamepads,
{
    let (g, a) = (gamepads.bits, added.bits);
    assert(g & a == 0 ==> (g | a) & !a == g) by (bit_vector);
}

/// Adding and removing work on every gamepad by itself: the one of number `i` is there
/// after adding where it was there or is added, and after removing where it was there
/// and is not removed.
pub proof fn law_gamepads_are_kept_one_by_one(
    gamepads: ActiveGamepads,
    other: ActiveGamepads,
    i: u16,
)
    requires
        i < 16,
    ensures
        (gamepads.with(other).bits >> i) & 1 == 1 <==> (gamepads.bits >> i) & 1 == 1 || (other.bits
            >> i) & 1 == 1,
        (gamepads.without(other).bits >> i) & 1 == 1 <==> (gamepads.bits >> i) & 1 == 1 && !((
        other.bits >> i) & 1 == 1),
        ActiveGamepads::none().bits == 0,
{
    let (g, o) = (gamepads.bits, other.bits);
    assert(((g | o) >> i) & 1 == 1 <==> (g >> i) & 1 == 1 || (o >> i) & 1 == 1) by (bit_vector);
    assert(((g & !o) >> i) & 1 == 1 <==> (g >> i) & 1 == 1 && !((o >> i) & 1 == 1)) by (bit_vector);
}

/// Gamepads are among others where adding them makes no difference, and apart from
/// others where removing those makes none.
pub proof fn law_having_is_gaining_nothing(gamepads: ActiveGamepads, other: ActiveGamepads)
    ensures
        gamepads.has(other) <==> gamepads.bits | other.bits == gamepads.bits,
        gamepads.apart_from(other) <==> gamepads.bits & !other.bits == gamepads.bits,
{
    let (g, o) = (gamepads.bits, other.bits);
    assert(g & o == o <==> g | o == g) by (bit_vector);
    assert(g & o == 0 <==> g & !o == g) by (bit_vector);
}

} // verus!
