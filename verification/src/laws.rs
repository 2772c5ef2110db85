//! What holds of the oracle across calls, proved from the model that the
//! operations are specified against.

use vstd::prelude::*;
use crate::model::{
    apply_updates, authorize_relayer, cross_rate, cross_rate_bulk, ensure_relayer, rate_entry,
    relay, resolve_symbol, set_relayer, set_relayers, transfer_ownership, usd, State,
};
use crate::types::{Error, EventView, E9};

verus! {

/// A run of `set_relayer` calls by the owner leaves the owner in place.
pub proof fn lemma_set_relayers_keeps_owner(
    s: State,
    owner: Seq<u8>,
    calls: Seq<(Seq<u8>, bool)>,
)
    requires
        s.owner == Some(owner),
    ensures
        set_relayers(s, owner, calls).owner == Some(owner),
        set_relayers(s, owner, calls).refs == s.refs,
    decreases calls.len(),
{
    if calls.len() > 0 {
        lemma_set_relayers_keeps_owner(s, owner, calls.drop_last());
    }
}

/// After any run of `set_relayer` calls by the owner, an account is
/// authorized as the last call that named it says.
pub proof fn lemma_last_set_relayer_wins(
    s: State,
    owner: Seq<u8>,
    calls: Seq<(Seq<u8>, bool)>,
    at: int,
)
    requires
        s.owner == Some(owner),
        0 <= at < calls.len(),
        forall|j: int| at < j < calls.len() ==> (#[trigger] calls[j]).0 != calls[at].0,
    ensures
        authorize_relayer(set_relayers(s, owner, calls), calls[at].0) == Ok::<bool, Error>(
            calls[at].1,
        ),
    decreases calls.len(),
{
    let front = calls.drop_last();
    lemma_set_relayers_keeps_owner(s, owner, front);
    if at < calls.len() - 1 {
        assert(front[at] == calls[at]);
        assert forall|j: int| at < j < front.len() implies (#[trigger] front[j]).0 != front[at].0 by {
            assert(front[j] == calls[j]);
        }
        lemma_last_set_relayer_wins(s, owner, front, at);
        assert(calls.last() == calls[calls.len() - 1]);
    }
}

/// A run of `set_relayer` calls by the owner leaves every account that no
/// call names as it was: one that never had a flag is still `RelayerNotSet`.
pub proof fn lemma_unnamed_account_keeps_its_flag(
    s: State,
    owner: Seq<u8>,
    calls: Seq<(Seq<u8>, bool)>,
    who: Seq<u8>,
)
    requires
        s.owner == Some(owner),
        forall|j: int| 0 <= j < calls.len() ==> (#[trigger] calls[j]).0 != who,
    ensures
        authorize_relayer(set_relayers(s, owner, calls), who) == authorize_relayer(s, who),
        !s.relayers.contains_key(who) ==> ensure_relayer(set_relayers(s, owner, calls), who) == Err::<
            (),
            Error,
        >(Error::RelayerNotSet),
    decreases calls.len(),
{
    if calls.len() > 0 {
        let front = calls.drop_last();
        lemma_set_relayers_keeps_owner(s, owner, front);
        assert forall|j: int| 0 <= j < front.len() implies (#[trigger] front[j]).0 != who by {
            assert(front[j] == calls[j]);
        }
        lemma_unnamed_account_keeps_its_flag(s, owner, front, who);
        assert(calls.last() == calls[calls.len() - 1]);
    }
}

/// Where an owner is set, `transfer_ownership` by anyone else is refused
/// with `NotAnOwner` and changes nothing.
pub proof fn lemma_non_owner_cannot_transfer(s: State, caller: Seq<u8>, new_owner: Seq<u8>)
    requires
        s.owner is Some,
        s.owner != Some(caller),
    ensures
        transfer_ownership(s, caller, new_owner) == (
            s,
            Err::<EventView, Error>(Error::NotAnOwner),
        ),
{
}

/// The ledger after a batch holds, for each symbol of the batch, the last
/// item that names the symbol.
pub proof fn lemma_last_update_wins(
    refs: Map<Seq<u8>, (u64, u64, u64)>,
    updates: Seq<(Seq<u8>, u64, u64, u64)>,
    at: int,
)
    requires
        0 <= at < updates.len(),
        forall|j: int| at < j < updates.len() ==> (#[trigger] updates[j]).0 != updates[at].0,
    ensures
        rate_entry(apply_updates(refs, updates), updates[at].0) == Some(
            (updates[at].1, updates[at].2, updates[at].3),
        ),
    decreases updates.len(),
{
    if at < updates.len() - 1 {
        let front = updates.drop_last();
        assert(front[at] == updates[at]);
        assert forall|j: int| at < j < front.len() implies (#[trigger] front[j]).0 != front[at].0 by {
            assert(front[j] == updates[j]);
        }
        lemma_last_update_wins(refs, front, at);
        assert(updates.last() == updates[updates.len() - 1]);
    }
}

/// The ledger after a batch holds every symbol that the batch does not name
/// as before.
pub proof fn lemma_unnamed_symbol_keeps_its_entry(
    refs: Map<Seq<u8>, (u64, u64, u64)>,
    updates: Seq<(Seq<u8>, u64, u64, u64)>,
    symbol: Seq<u8>,
)
    requires
        forall|j: int| 0 <= j < updates.len() ==> (#[trigger] updates[j]).0 != symbol,
    ensures
        rate_entry(apply_updates(refs, updates), symbol) == rate_entry(refs, symbol),
    decreases updates.len(),
{
    if updates.len() > 0 {
        let front = updates.drop_last();
        assert forall|j: int| 0 <= j < front.len() implies (#[trigger] front[j]).0 != symbol by {
            assert(front[j] == updates[j]);
        }
        lemma_unnamed_symbol_keeps_its_entry(refs, front, symbol);
        assert(updates.last() == updates[updates.len() - 1]);
    }
}

/// After a relay that was let through, the entry of every symbol of the
/// batch is the last item of the batch that names it.
pub proof fn lemma_relay_then_get_refs(
    s: State,
    caller: Seq<u8>,
    updates: Seq<(Seq<u8>, u64, u64, u64)>,
    at: int,
)
    requires
        relay(s, caller, updates).1 is Ok,
        0 <= at < updates.len(),
        forall|j: int| at < j < updates.len() ==> (#[trigger] updates[j]).0 != updates[at].0,
    ensures
        rate_entry(relay(s, caller, updates).0.refs, updates[at].0) == Some(
            (updates[at].1, updates[at].2, updates[at].3),
        ),
{
    lemma_last_update_wins(s.refs, updates, at);
}

/// `USD` resolves to the rate `E9` and the clock reading, whatever the
/// ledger holds, and to nothing where there is no clock reading.
pub proof fn lemma_usd_ignores_the_ledger(refs: Map<Seq<u8>, (u64, u64, u64)>, now: Option<u64>)
    ensures
        now matches Some(t) ==> resolve_symbol(refs, usd(), now) == Some((E9, t)),
        now is None ==> resolve_symbol(refs, usd(), now) is None,
{
}

/// A symbol that resolves to a rate above zero has the cross-rate
/// `10^18` over itself, exactly, with its own timestamp on both legs.
pub proof fn lemma_cross_rate_with_itself(
    refs: Map<Seq<u8>, (u64, u64, u64)>,
    symbol: Seq<u8>,
    now: Option<u64>,
)
    requires
        resolve_symbol(refs, symbol, now) matches Some(leg) && leg.0 > 0,
    ensures
        cross_rate(refs, symbol, symbol, now) == Some(
            (
                1_000_000_000_000_000_000u64,
                resolve_symbol(refs, symbol, now).unwrap().1,
                resolve_symbol(refs, symbol, now).unwrap().1,
            ),
        ),
{
    let rate = resolve_symbol(refs, symbol, now).unwrap().0 as int;
    assert((rate * 1_000_000_000_000_000_000) / rate == 1_000_000_000_000_000_000) by (nonlinear_arith)
        requires
            rate > 0,
    ;
}

/// One pair without a cross-rate leaves the whole bulk query without a result.
pub proof fn lemma_bulk_fails_with_one_pair(
    refs: Map<Seq<u8>, (u64, u64, u64)>,
    pairs: Seq<(Seq<u8>, Seq<u8>)>,
    now: Option<u64>,
    at: int,
)
    requires
        0 <= at < pairs.len(),
        cross_rate(refs, pairs[at].0, pairs[at].1, now) is None,
    ensures
        cross_rate_bulk(refs, pairs, now) is None,
{
}

/// The bulk query over `(USD, USD)` and `(X, USD)` has no result where `X`
/// was never relayed, although `(USD, USD)` alone has one under any clock
/// reading.
pub proof fn lemma_bulk_with_unknown_symbol(
    refs: Map<Seq<u8>, (u64, u64, u64)>,
    unknown: Seq<u8>,
    now: Option<u64>,
)
    requires
        unknown != usd(),
        !refs.contains_key(unknown),
    ensures
        cross_rate_bulk(refs, seq![(usd(), usd()), (unknown, usd())], now) is None,
        now is Some ==> cross_rate(refs, usd(), usd(), now) is Some,
{
    let pairs = seq![(usd(), usd()), (unknown, usd())];
    assert(pairs[1] == (unknown, usd()));
    lemma_bulk_fails_with_one_pair(refs, pairs, now, 1);
}

/// Once the owner has revoked a relayer, a relay by that account is refused
/// with `NotARelayer` and leaves the state as the revocation left it.
pub proof fn lemma_revoked_relayer_is_refused(
    s: State,
    owner: Seq<u8>,
    relayer: Seq<u8>,
    updates: Seq<(Seq<u8>, u64, u64, u64)>,
)
    requires
        s.owner == Some(owner),
    ensures
        set_relayer(s, owner, relayer, false).1 is Ok,
        relay(set_relayer(s, owner, relayer, false).0, relayer, updates) == (
            set_relayer(s, owner, relayer, false).0,
            Err::<Seq<EventView>, Error>(Error::NotARelayer),
        ),
{
}

} // verus!
