//! The shared-state arbiter: a single-slot holder with exclusive checkout.
//!
//! The module state is installed once at startup and thereafter lives
//! either inside the slot or with exactly one borrower.  Checking out an
//! empty slot is the load-bearing failure: it means a reentrant or
//! unmatched borrow, and it is reported as a typed error instead of ever
//! handing out a second copy.  On the device the slot sits inside a
//! critical section so interrupt handlers cannot race the exchange; that
//! locking is the shell's concern, the slot discipline is proved here.

use vstd::prelude::*;
use crate::types::ModuleState;

verus! {

/// The arbiter's failure modes: taking from an empty slot (a reentrant or
/// unmatched checkout), or installing over an occupied one.
#[derive(Clone, Copy, PartialEq, Eq, Structural, Debug)]
pub enum ArbiterError {
    SlotEmpty,
    SlotOccupied,
}

/// The single-slot holder of the shared module state.
pub struct Arbiter {
    slot: Option<ModuleState>,
}

impl Arbiter {
    /// The slot currently holds the state.
    pub closed spec fn occupied(self) -> bool {
        self.slot is Some
    }

    /// The state the slot holds, when occupied.
    pub closed spec fn stored(self) -> ModuleState {
        self.slot->0
    }

    /// What one checkout does to the arbiter, and what it returns: the
    /// state leaves an occupied slot; an empty slot is refused and left
    /// as it is.
    pub closed spec fn checkout_spec(self) -> (Arbiter, Result<ModuleState, ArbiterError>) {
        if self.occupied() {
            (Arbiter { slot: Option::None }, Result::Ok(self.stored()))
        } else {
            (self, Result::Err(ArbiterError::SlotEmpty))
        }
    }

    /// An empty arbiter, ready for the one-time install.
    pub fn new() -> (a: Arbiter)
        ensures
            !a.occupied(),
    {
        Arbiter { slot: None }
    }

    /// Whether the slot currently holds the state, without taking it.
    pub fn is_occupied(&self) -> (b: bool)
        ensures
            b == self.occupied(),
    {
        self.slot.is_some()
    }

    /// The one-time installation of the module state, before any consumer
    /// interrupt is unmasked.  A second install is refused.
    pub fn install(&mut self, state: ModuleState) -> (r: Result<(), ArbiterError>)
        ensures
            !old(self).occupied() ==> r is Ok && final(self).occupied() && final(self).stored()
                == state,
            old(self).occupied() ==> r == Result::<(), ArbiterError>::Err(
                ArbiterError::SlotOccupied,
            ) && *final(self) == *old(self),
    {
        match &self.slot {
            Some(_) => Err(ArbiterError::SlotOccupied),
            None => {
                self.slot = Some(state);
                Ok(())
            },
        }
    }

    /// Exclusive borrow: empties an occupied slot and hands its state to
    /// the single holder.  On an empty slot — a reentrant checkout, or
    /// one whose predecessor was never returned — it refuses with
    /// `SlotEmpty` and changes nothing.
    pub fn checkout(&mut self) -> (r: Result<ModuleState, ArbiterError>)
        ensures
            (*final(self), r) == old(self).checkout_spec(),
            old(self).occupied() ==> r is Ok && r->Ok_0 == old(self).stored()
                && !final(self).occupied(),
            !old(self).occupied() ==> r == Result::<ModuleState, ArbiterError>::Err(
                ArbiterError::SlotEmpty,
            ) && *final(self) == *old(self),
    {
        match self.slot.take() {
            Some(state) => Ok(state),
            None => Err(ArbiterError::SlotEmpty),
        }
    }

    /// Return of the borrowed state.  A checkin with no matching checkout
    /// is prevented by construction: the handlers always pair the two, so
    /// the slot is empty here.
    pub fn checkin(&mut self, state: ModuleState)
        requires
            !old(self).occupied(),
        ensures
            final(self).occupied(),
            final(self).stored() == state,
    {
        self.slot = Some(state);
    }
}

/// Law: checkout follows a strict stack discipline.  From an occupied
/// arbiter one checkout succeeds and empties the slot, and a second
/// checkout without an intervening checkin is refused with `SlotEmpty`,
/// leaving the arbiter unchanged.
pub proof fn lemma_checkout_strict_stack(a: Arbiter)
    requires
        a.occupied(),
    ensures
        a.checkout_spec().1 is Ok,
        a.checkout_spec().1->Ok_0 == a.stored(),
        !a.checkout_spec().0.occupied(),
        a.checkout_spec().0.checkout_spec().1 == Result::<ModuleState, ArbiterError>::Err(
            ArbiterError::SlotEmpty,
        ),
        a.checkout_spec().0.checkout_spec().0 == a.checkout_spec().0,
{
}

} // verus!
