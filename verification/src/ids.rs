//! Arena identifiers. Every identifier names a slot of one deck instance and
//! carries the handle of that instance, so that an accessor can tell an
//! identifier of its own deck from a stranger's.

use vstd::prelude::*;

verus! {

/// Handle of one running deck instance.
#[derive(Clone, Copy, Debug, PartialEq, Eq, Structural)]
pub struct DeckId {
    index: usize,
}

impl DeckId {
    /// The sequence number behind the handle.
    pub closed spec fn number(self) -> nat {
        self.index as nat
    }

    /// The sequence number under which the handle was issued.
    pub fn index(&self) -> (i: usize)
        ensures
            i == self.number(),
    {
        self.index
    }
}

/// Issues deck handles in sequence; no handle is issued twice.
#[derive(Debug)]
pub struct DeckIdRegistry {
    next: usize,
}

impl DeckIdRegistry {
    /// The number that the next handle will carry.
    pub closed spec fn upcoming(self) -> nat {
        self.next as nat
    }

    /// A registry whose first handle carries the number 1.
    pub fn new() -> (r: Self)
        ensures
            r.upcoming() == 1,
    {
        DeckIdRegistry { next: 1 }
    }

    /// Issues the next handle, or `None` once the numbers are used up.
    pub fn issue(&mut self) -> (id: Option<DeckId>)
        ensures
            old(self).upcoming() < usize::MAX ==> id is Some && id->0.number() == old(self).upcoming()
                && final(self).upcoming() == old(self).upcoming() + 1,
            old(self).upcoming() >= usize::MAX ==> id is None && *final(self) == *old(self),
    {
        if self.next < usize::MAX {
            let id = DeckId { index: self.next };
            self.next = self.next + 1;
            Some(id)
        } else {
            None
        }
    }
}

/// Two handles carry the same number only if they are the same handle.
pub proof fn lemma_deck_id_by_number(a: DeckId, b: DeckId)
    ensures
        a.number() == b.number() <==> a == b,
{
}

/// Index of a setup in the setup arena of the deck `deck`.
#[derive(Clone, Copy, Debug, PartialEq, Eq, Structural)]
pub struct SetupId {
    pub deck: DeckId,
    pub index: usize,
}

/// Index of a button in the button arena of the deck `deck`.
#[derive(Clone, Copy, Debug, PartialEq, Eq, Structural)]
pub struct ButtonId {
    pub deck: DeckId,
    pub index: usize,
}

/// Index of a state in the state list of the button `button`.
#[derive(Clone, Copy, Debug, PartialEq, Eq, Structural)]
pub struct StateId {
    pub button: ButtonId,
    pub index: usize,
}

impl ButtonId {
    /// The id of the button at `index` of the deck `owner`.
    pub fn new(owner: DeckId, index: usize) -> (id: Self)
        ensures
            id == (ButtonId { deck: owner, index }),
    {
        ButtonId { deck: owner, index }
    }
}

} // verus!
