//! The oracle's state and its operations: the owner-gated administration,
//! the relayer-gated update path, and the ungated price queries.

use vstd::prelude::*;
use crate::bytes::bytes_eq;
use crate::model;
use crate::model::State;
use crate::price::{is_usd, scaled_ratio};
use crate::table::Table;
use crate::types::{AccountId, Error, Event, EventView, RateEntry, RateUpdate, ReferenceData, E9};

verus! {

/// The oracle: who owns it, who may relay, and the latest rate of each symbol.
pub struct Pallet {
    /// The administrator, absent until one is configured.
    pub owner: Option<AccountId>,
    /// The relayer flag of each account that the owner has written one for.
    pub relayers: Table<bool>,
    /// The rate ledger: the latest entry of each relayed symbol.
    pub refs: Table<RateEntry>,
}

impl View for Pallet {
    type V = State;

    open spec fn view(&self) -> State {
        State { owner: owner_view(self.owner), relayers: self.relayers@, refs: self.refs@ }
    }
}

/// An optional account over byte sequences.
pub open spec fn owner_view(owner: Option<AccountId>) -> Option<Seq<u8>> {
    match owner {
        Some(account) => Some(account@),
        None => None,
    }
}

/// A relay batch over byte sequences.
pub open spec fn updates_view(values: Seq<RateUpdate>) -> Seq<(Seq<u8>, u64, u64, u64)> {
    values.map_values(|v: RateUpdate| (v.0@, v.1, v.2, v.3))
}

/// A list of `(base, quote)` pairs over byte sequences.
pub open spec fn pairs_view(pairs: Seq<(Vec<u8>, Vec<u8>)>) -> Seq<(Seq<u8>, Seq<u8>)> {
    pairs.map_values(|p: (Vec<u8>, Vec<u8>)| (p.0@, p.1@))
}

/// The outcome of the owner check over byte sequences.
pub open spec fn account_outcome(result: Result<AccountId, Error>) -> Result<Seq<u8>, Error> {
    match result {
        Ok(account) => Ok(account@),
        Err(e) => Err(e),
    }
}

/// The outcome of an administrative operation over byte sequences.
pub open spec fn event_outcome(result: Result<Event, Error>) -> Result<EventView, Error> {
    match result {
        Ok(event) => Ok(event@),
        Err(e) => Err(e),
    }
}

/// The outcome of a relay over byte sequences.
pub open spec fn events_outcome(
    result: Result<Vec<Event>, Error>,
) -> Result<Seq<EventView>, Error> {
    match result {
        Ok(events) => Ok(events@.map_values(|e: Event| e@)),
        Err(e) => Err(e),
    }
}

/// The outcome of a bulk query as a sequence.
pub open spec fn bulk_view(result: Option<Vec<ReferenceData>>) -> Option<Seq<ReferenceData>> {
    match result {
        Some(data) => Some(data@),
        None => None,
    }
}

impl Pallet {
    /// An oracle with the given owner, no relayers and an empty ledger.
    pub fn new(owner: Option<AccountId>) -> (pallet: Self)
        ensures
            pallet.owner == owner,
            pallet@ == model::initial(owner_view(owner)),
    {
        Pallet { owner, relayers: Table::new(), refs: Table::new() }
    }

    /// The owner check of the administrative operations: gives the current
    /// owner if `caller` is that owner.
    pub fn ensure_owner(&self, caller: &AccountId) -> (result: Result<AccountId, Error>)
        ensures
            account_outcome(result) == model::ensure_owner(self@, caller@),
    {
        match &self.owner {
            None => Err(Error::OwnerNotSet),
            Some(owner) => {
                if bytes_eq(owner, caller) {
                    Ok(owner.clone())
                } else {
                    Err(Error::NotAnOwner)
                }
            },
        }
    }

    /// Hands the ownership to `new_owner`, if `caller` is the owner. The event
    /// carries the new owner, then the previous one. A refusal changes nothing.
    pub fn transfer_ownership(
        &mut self,
        caller: AccountId,
        new_owner: AccountId,
    ) -> (result: Result<Event, Error>)
        ensures
            final(self)@ == model::transfer_ownership(old(self)@, caller@, new_owner@).0,
            event_outcome(result) == model::transfer_ownership(old(self)@, caller@, new_owner@).1,
    {
        match self.ensure_owner(&caller) {
            Err(e) => Err(e),
            Ok(previous) => {
                self.owner = Some(new_owner.clone());
                Ok(Event::TransferOwnership(new_owner, previous))
            },
        }
    }

    /// Writes the relayer flag of `relayer`, if `caller` is the owner. Writing
    /// `false` revokes, and is kept apart from never having been written.
    /// A refusal changes nothing.
    pub fn set_relayer(
        &mut self,
        caller: AccountId,
        relayer: AccountId,
        is_relayer: bool,
    ) -> (result: Result<Event, Error>)
        ensures
            final(self)@ == model::set_relayer(old(self)@, caller@, relayer@, is_relayer).0,
            event_outcome(result) == model::set_relayer(old(self)@, caller@, relayer@, is_relayer).1,
    {
        match self.ensure_owner(&caller) {
            Err(e) => Err(e),
            Ok(_) => {
                self.relayers.insert(relayer.clone(), is_relayer);
                Ok(Event::SetRelayer(relayer, is_relayer))
            },
        }
    }

    /// The stored relayer flag of `caller`, or `RelayerNotSet` where the owner
    /// never wrote one.
    pub fn authorize_relayer(&self, caller: &AccountId) -> (result: Result<bool, Error>)
        ensures
            result == model::authorize_relayer(self@, caller@),
    {
        match self.relayers.get(caller) {
            Some(flag) => Ok(flag),
            None => Err(Error::RelayerNotSet),
        }
    }

    /// Writes every item of the batch to the ledger, in order, if `caller` is
    /// an active relayer; the caller is checked once for the whole batch. The
    /// events come in the order of the batch. A refusal changes nothing.
    pub fn relay(
        &mut self,
        caller: AccountId,
        values: Vec<RateUpdate>,
    ) -> (result: Result<Vec<Event>, Error>)
        ensures
            final(self)@ == model::relay(old(self)@, caller@, updates_view(values@)).0,
            events_outcome(result) == model::relay(old(self)@, caller@, updates_view(values@)).1,
    {
        match self.authorize_relayer(&caller) {
            Err(e) => {
                return Err(e);
            },
            Ok(false) => {
                return Err(Error::NotARelayer);
            },
            Ok(true) => {},
        }
        let ghost before = self@;
        let ghost updates = updates_view(values@);
        let mut events: Vec<Event> = Vec::new();
        let mut i: usize = 0;
        while i < values.len()
            invariant
                i <= values.len(),
                updates == updates_view(values@),
                self@.owner == before.owner,
                self@.relayers == before.relayers,
                self@.refs == model::apply_updates(before.refs, updates.take(i as int)),
                events@.len() == i,
                forall|k: int| 0 <= k < i ==> (#[trigger] events@[k])@ == model::update_event(updates[k]),
            decreases values.len() - i,
        {
            let item = &values[i];
            self.refs.insert(item.0.clone(), (item.1, item.2, item.3));
            events.push(Event::RefDataUpdate(item.0.clone(), item.1, item.2, item.3));
            proof {
                assert(updates.take(i + 1).drop_last() =~= updates.take(i as int));
                assert(updates.take(i + 1).last() == updates[i as int]);
            }
            i += 1;
        }
        proof {
            assert(updates.take(values.len() as int) =~= updates);
            assert(events@.map_values(|e: Event| e@) =~= updates.map_values(
                |u: (Seq<u8>, u64, u64, u64)| model::update_event(u),
            ));
        }
        Ok(events)
    }

    /// The ledger's entry for `symbol`, or `None` where none was ever relayed.
    pub fn get_refs(&self, symbol: Vec<u8>) -> (entry: Option<RateEntry>)
        ensures
            entry == model::rate_entry(self@.refs, symbol@),
    {
        self.refs.get(&symbol)
    }

    /// The rate and timestamp of `symbol`. `USD` always has the rate `E9` and
    /// the timestamp `now`, whatever the ledger holds; `now` is the host's
    /// clock reading, `None` where that reading does not fit in 64 bits. Any
    /// other symbol has the rate and resolve time of its ledger entry.
    pub fn get_ref_data(&self, symbol: Vec<u8>, now: Option<u64>) -> (data: Option<(u64, u64)>)
        ensures
            data == model::resolve_symbol(self@.refs, symbol@, now),
    {
        if is_usd(&symbol) {
            match now {
                Some(t) => Some((E9, t)),
                None => None,
            }
        } else {
            match self.get_refs(symbol) {
                Some(entry) => Some((entry.0, entry.1)),
                None => None,
            }
        }
    }

    /// The cross-rate of `base_symbol` over `quote_symbol` with the timestamp
    /// of each leg. There is none where either symbol does not resolve, and
    /// none where the quote rate is zero.
    pub fn get_reference_data(
        &self,
        base_symbol: Vec<u8>,
        quote_symbol: Vec<u8>,
        now: Option<u64>,
    ) -> (data: Option<ReferenceData>)
        ensures
            data == model::cross_rate(self@.refs, base_symbol@, quote_symbol@, now),
    {
        let base = match self.get_ref_data(base_symbol, now) {
            Some(base) => base,
            None => {
                return None;
            },
        };
        let quote = match self.get_ref_data(quote_symbol, now) {
            Some(quote) => quote,
            None => {
                return None;
            },
        };
        match scaled_ratio(base.0, quote.0) {
            Some(rate) => Some((rate, base.1, quote.1)),
            None => None,
        }
    }

    /// The cross-rates of all pairs, in order. One pair without a cross-rate
    /// fails the whole query.
    pub fn get_reference_data_bulk(
        &self,
        base_quote_symbols: Vec<(Vec<u8>, Vec<u8>)>,
        now: Option<u64>,
    ) -> (data: Option<Vec<ReferenceData>>)
        ensures
            bulk_view(data) == model::cross_rate_bulk(self@.refs, pairs_view(base_quote_symbols@), now),
    {
        let ghost pairs = pairs_view(base_quote_symbols@);
        let mut data: Vec<ReferenceData> = Vec::new();
        let mut i: usize = 0;
        while i < base_quote_symbols.len()
            invariant
                i <= base_quote_symbols.len(),
                pairs == pairs_view(base_quote_symbols@),
                data@.len() == i,
                forall|k: int|
                    0 <= k < i ==> model::cross_rate(self@.refs, (#[trigger] pairs[k]).0, pairs[k].1, now)
                        == Some(data@[k]),
            decreases base_quote_symbols.len() - i,
        {
            let pair = &base_quote_symbols[i];
            match self.get_reference_data(pair.0.clone(), pair.1.clone(), now) {
                None => {
                    assert(model::cross_rate(self@.refs, pairs[i as int].0, pairs[i as int].1, now) is None);
                    return None;
                },
                Some(one) => {
                    data.push(one);
                },
            }
            i += 1;
        }
        assert(data@ =~= Seq::new(
            pairs.len(),
            |i: int| model::cross_rate(self@.refs, pairs[i].0, pairs[i].1, now).unwrap(),
        ));
        Some(data)
    }
}

} // verus!
