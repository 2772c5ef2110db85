//! The oracle as mathematics: its state as maps over byte sequences, and each
//! operation as a function from the state before to the state after and the
//! outcome. The executable operations are specified against these functions.

use vstd::prelude::*;
use crate::types::{Error, EventView, E18, E9};

verus! {

/// The whole state of the oracle.
pub struct State {
    /// The administrator, absent until one is configured.
    pub owner: Option<Seq<u8>>,
    /// The relayer flag of every account that the owner has ever written one for.
    pub relayers: Map<Seq<u8>, bool>,
    /// The latest `(rate, resolve_time, request_id)` of every relayed symbol.
    pub refs: Map<Seq<u8>, (u64, u64, u64)>,
}

/// The state of an oracle that was just set up: the given owner, no relayer
/// flags and an empty ledger.
pub open spec fn initial(owner: Option<Seq<u8>>) -> State {
    State { owner, relayers: Map::empty(), refs: Map::empty() }
}

/// The bytes of the reserved symbol `USD`.
pub open spec fn usd() -> Seq<u8> {
    seq![0x55u8, 0x53u8, 0x44u8]
}

/// The owner check of the gated administrative operations: the current owner
/// if `caller` is that owner.
pub open spec fn ensure_owner(s: State, caller: Seq<u8>) -> Result<Seq<u8>, Error> {
    match s.owner {
        None => Err(Error::OwnerNotSet),
        Some(owner) => if owner == caller {
            Ok(owner)
        } else {
            Err(Error::NotAnOwner)
        },
    }
}

/// `transfer_ownership` by `caller`: the state after it, and the event or the refusal.
pub open spec fn transfer_ownership(
    s: State,
    caller: Seq<u8>,
    new_owner: Seq<u8>,
) -> (State, Result<EventView, Error>) {
    match ensure_owner(s, caller) {
        Err(e) => (s, Err(e)),
        Ok(previous) => (
            State { owner: Some(new_owner), ..s },
            Ok(EventView::TransferOwnership(new_owner, previous)),
        ),
    }
}

/// `set_relayer` by `caller`: the state after it, and the event or the refusal.
pub open spec fn set_relayer(
    s: State,
    caller: Seq<u8>,
    relayer: Seq<u8>,
    is_relayer: bool,
) -> (State, Result<EventView, Error>) {
    match ensure_owner(s, caller) {
        Err(e) => (s, Err(e)),
        Ok(_) => (
            State { relayers: s.relayers.insert(relayer, is_relayer), ..s },
            Ok(EventView::SetRelayer(relayer, is_relayer)),
        ),
    }
}

/// The state after `caller` made the `set_relayer` calls one after the other,
/// each call given as `(relayer, is_relayer)`.
pub open spec fn set_relayers(s: State, caller: Seq<u8>, calls: Seq<(Seq<u8>, bool)>) -> State
    decreases calls.len(),
{
    if calls.len() == 0 {
        s
    } else {
        let last = calls.last();
        set_relayer(set_relayers(s, caller, calls.drop_last()), caller, last.0, last.1).0
    }
}

/// The stored relayer flag of `caller`, or `RelayerNotSet` where none was ever written.
pub open spec fn authorize_relayer(s: State, caller: Seq<u8>) -> Result<bool, Error> {
    if s.relayers.contains_key(caller) {
        Ok(s.relayers[caller])
    } else {
        Err(Error::RelayerNotSet)
    }
}

/// Whether `caller` may relay: its flag must be stored and `true`.
pub open spec fn ensure_relayer(s: State, caller: Seq<u8>) -> Result<(), Error> {
    match authorize_relayer(s, caller) {
        Err(e) => Err(e),
        Ok(false) => Err(Error::NotARelayer),
        Ok(true) => Ok(()),
    }
}

/// The ledger after the updates were written one after the other.
pub open spec fn apply_updates(
    refs: Map<Seq<u8>, (u64, u64, u64)>,
    updates: Seq<(Seq<u8>, u64, u64, u64)>,
) -> Map<Seq<u8>, (u64, u64, u64)>
    decreases updates.len(),
{
    if updates.len() == 0 {
        refs
    } else {
        let last = updates.last();
        apply_updates(refs, updates.drop_last()).insert(last.0, (last.1, last.2, last.3))
    }
}

/// The event that reports one update.
pub open spec fn update_event(update: (Seq<u8>, u64, u64, u64)) -> EventView {
    EventView::RefDataUpdate(update.0, update.1, update.2, update.3)
}

/// `relay` by `caller`: the state after it, and the events in the order of
/// the updates, or the refusal.
pub open spec fn relay(
    s: State,
    caller: Seq<u8>,
    updates: Seq<(Seq<u8>, u64, u64, u64)>,
) -> (State, Result<Seq<EventView>, Error>) {
    match ensure_relayer(s, caller) {
        Err(e) => (s, Err(e)),
        Ok(_) => (
            State { refs: apply_updates(s.refs, updates), ..s },
            Ok(updates.map_values(|u: (Seq<u8>, u64, u64, u64)| update_event(u))),
        ),
    }
}

/// The ledger's entry for a symbol, if the symbol was ever relayed.
pub open spec fn rate_entry(
    refs: Map<Seq<u8>, (u64, u64, u64)>,
    symbol: Seq<u8>,
) -> Option<(u64, u64, u64)> {
    if refs.contains_key(symbol) {
        Some(refs[symbol])
    } else {
        None
    }
}

/// The rate and timestamp of a symbol. `USD` is never looked up: its rate is
/// one and its timestamp the clock reading `now`, which is `None` where the
/// host's clock does not fit in 64 bits.
pub open spec fn resolve_symbol(
    refs: Map<Seq<u8>, (u64, u64, u64)>,
    symbol: Seq<u8>,
    now: Option<u64>,
) -> Option<(u64, u64)> {
    if symbol == usd() {
        match now {
            Some(t) => Some((E9, t)),
            None => None,
        }
    } else {
        match rate_entry(refs, symbol) {
            Some(entry) => Some((entry.0, entry.1)),
            None => None,
        }
    }
}

/// `floor(base_rate * 10^18 / quote_rate)`, of which the low 64 bits are kept.
pub open spec fn scaled_ratio(base_rate: u64, quote_rate: u64) -> u64
    recommends
        quote_rate != 0,
{
    (((base_rate as int * E18 as int) / (quote_rate as int)) % 0x1_0000_0000_0000_0000) as u64
}

/// The cross-rate of two resolved legs: none where a leg is missing or the
/// quote rate is zero.
pub open spec fn combine(
    base: Option<(u64, u64)>,
    quote: Option<(u64, u64)>,
) -> Option<(u64, u64, u64)> {
    match (base, quote) {
        (Some(b), Some(q)) => if q.0 == 0 {
            None
        } else {
            Some((scaled_ratio(b.0, q.0), b.1, q.1))
        },
        _ => None,
    }
}

/// The cross-rate of `base` over `quote` with the timestamp of each leg.
pub open spec fn cross_rate(
    refs: Map<Seq<u8>, (u64, u64, u64)>,
    base: Seq<u8>,
    quote: Seq<u8>,
    now: Option<u64>,
) -> Option<(u64, u64, u64)> {
    combine(resolve_symbol(refs, base, now), resolve_symbol(refs, quote, now))
}

/// The cross-rates of all pairs in order, or none where any pair has none.
pub open spec fn cross_rate_bulk(
    refs: Map<Seq<u8>, (u64, u64, u64)>,
    pairs: Seq<(Seq<u8>, Seq<u8>)>,
    now: Option<u64>,
) -> Option<Seq<(u64, u64, u64)>> {
    if forall|i: int|
        0 <= i < pairs.len() ==> cross_rate(refs, (#[trigger] pairs[i]).0, pairs[i].1, now) is Some {
        Some(Seq::new(pairs.len(), |i: int| cross_rate(refs, pairs[i].0, pairs[i].1, now).unwrap()))
    } else {
        None
    }
}

} // verus!
