//! The values that cross the library's boundary: identities, rate entries,
//! the errors of the gated operations and the events that report a change.

use vstd::prelude::*;

verus! {

/// One, in the nine-decimal fixed point in which rates are stored.
pub const E9: u64 = 1_000_000_000;

/// The factor by which a base rate is scaled before it is divided by a quote rate.
pub const E18: u128 = 1_000_000_000_000_000_000;

/// An account handle. The host authenticates the caller and hands over the
/// handle as bytes; two handles are the same account when their bytes agree.
pub type AccountId = Vec<u8>;

/// What the ledger keeps per symbol: `(rate, resolve_time, request_id)`.
pub type RateEntry = (u64, u64, u64);

/// One item of a relay batch: `(symbol, rate, resolve_time, request_id)`.
pub type RateUpdate = (Vec<u8>, u64, u64, u64);

/// A resolved cross-rate: `(rate, base_timestamp, quote_timestamp)`.
pub type ReferenceData = (u64, u64, u64);

/// Why a gated operation was refused.
#[derive(Clone, Copy, Debug, PartialEq, Eq, Structural)]
pub enum Error {
    /// No owner has been configured.
    OwnerNotSet,
    /// The caller is not the owner.
    NotAnOwner,
    /// The caller has no entry in the relayer set.
    RelayerNotSet,
    /// The caller's entry in the relayer set says that it is no relayer.
    NotARelayer,
}

/// A change that an operation made, for the host to publish.
#[derive(Debug, PartialEq, Eq)]
pub enum Event {
    /// Ownership moved: `(new_owner, previous_owner)`.
    TransferOwnership(AccountId, AccountId),
    /// A relayer flag was written: `(account, is_relayer)`.
    SetRelayer(AccountId, bool),
    /// A rate was written: `(symbol, rate, resolve_time, request_id)`.
    RefDataUpdate(Vec<u8>, u64, u64, u64),
}

/// An event over byte sequences.
pub enum EventView {
    TransferOwnership(Seq<u8>, Seq<u8>),
    SetRelayer(Seq<u8>, bool),
    RefDataUpdate(Seq<u8>, u64, u64, u64),
}

impl View for Event {
    type V = EventView;

    open spec fn view(&self) -> EventView {
        match *self {
            Event::TransferOwnership(new_owner, previous) => EventView::TransferOwnership(
                new_owner@,
                previous@,
            ),
            Event::SetRelayer(account, is_relayer) => EventView::SetRelayer(account@, is_relayer),
            Event::RefDataUpdate(symbol, rate, resolve_time, request_id) => EventView::RefDataUpdate(
                symbol@,
                rate,
                resolve_time,
                request_id,
            ),
        }
    }
}

} // verus!
