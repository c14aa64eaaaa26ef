//! Transport lease registry: exclusive, single-holder ownership of the
//! transmit/receive transport halves.
//!
//! The underlying transport pair cannot be split or cloned, so at any
//! moment it is either parked here (Free) or held by exactly one driver
//! task (Leased). `acquire` and `release` are the only ways ownership
//! changes hands.

use vstd::prelude::*;

use crate::pdu::PduEngine;

verus! {

/// Ownership token for the transmit half of the transport.
pub struct TxHandle {
    /// Identifier of the bound network channel.
    pub channel: u16,
}

/// Ownership token for the receive half of the transport.
pub struct RxHandle {
    /// Identifier of the bound network channel.
    pub channel: u16,
}

/// Everything the registry parks between leases: the two transport
/// halves and the exchange engine's queue state.
pub struct TransportHalves {
    pub tx: TxHandle,
    pub rx: RxHandle,
    /// The exchange engine's queue state, parked along with the halves.
    pub queue: PduEngine,
}

/// Error returned when a lease operation is called in the wrong state.
#[derive(Clone, Copy, Debug, PartialEq, Eq, Structural)]
pub enum LeaseError {
    /// `acquire` was called while a driver task already holds the halves.
    AlreadyLeased,
    /// `release` was called while the registry already holds the halves.
    NotLeased,
}

/// Two-state lease registry: Free (halves parked here) or Leased
/// (halves held by a driver task; nothing stored).
pub struct LeaseRegistry {
    slot: Option<TransportHalves>,
}

impl LeaseRegistry {
    /// The registry holds the parked halves and a lease can be granted.
    pub closed spec fn is_free(&self) -> bool {
        self.slot is Some
    }

    /// A driver task currently owns the halves.
    pub closed spec fn is_leased(&self) -> bool {
        self.slot is None
    }

    /// The halves parked in a Free registry.
    pub closed spec fn parked(&self) -> TransportHalves
        recommends
            self.is_free(),
    {
        self.slot->Some_0
    }

    /// Create a registry in the Free state, parking `halves`.
    pub fn new(halves: TransportHalves) -> (r: LeaseRegistry)
        ensures
            r.is_free(),
            r.parked() == halves,
    {
        LeaseRegistry { slot: Some(halves) }
    }

    /// Take exclusive ownership of the transport halves.
    ///
    /// Fails with `AlreadyLeased`, leaving the registry unchanged, iff a
    /// lease is already outstanding.
    pub fn acquire(&mut self) -> (r: Result<TransportHalves, LeaseError>)
        ensures
            old(self).is_free() ==> r == Result::<TransportHalves, LeaseError>::Ok(old(self).parked())
                && final(self).is_leased(),
            old(self).is_leased() ==> r == Result::<TransportHalves, LeaseError>::Err(LeaseError::AlreadyLeased)
                && *final(self) == *old(self),
    {
        match self.slot.take() {
            Some(halves) => Ok(halves),
            None => Err(LeaseError::AlreadyLeased),
        }
    }

    /// Return the transport halves, ending the outstanding lease.
    ///
    /// Fails with `NotLeased`, leaving the registry unchanged, iff no
    /// lease is outstanding: a second release of the same lease is
    /// rejected rather than overwriting the parked halves.
    pub fn release(&mut self, halves: TransportHalves) -> (r: Result<(), LeaseError>)
        ensures
            old(self).is_leased() ==> r == Result::<(), LeaseError>::Ok(())
                && final(self).is_free() && final(self).parked() == halves,
            old(self).is_free() ==> r == Result::<(), LeaseError>::Err(LeaseError::NotLeased)
                && *final(self) == *old(self),
    {
        match &self.slot {
            None => {
                self.slot = Some(halves);
                Ok(())
            }
            Some(_) => Err(LeaseError::NotLeased),
        }
    }
}

/// The registry has exactly the two observable states Free and Leased:
/// every registry value is in one of them, and never in both.
pub proof fn lemma_lease_two_states(r: &LeaseRegistry)
    ensures
        r.is_free() || r.is_leased(),
        !(r.is_free() && r.is_leased()),
{
}

} // verus!
