use vstd::prelude::*;

use crate::error::ContractError;
use cosmwasm_std::{StdError, Timestamp};

use crate::execute::{
    cancel_energy_transfer, cancel_refusal, completed_refusal, energy_transfer_completed,
    energy_transfer_started, loaded, paid_transfer, payout_leg, publish_energy_transfer_offer,
    published_offer, remove_energy_offer, remove_energy_transfer, remove_offer_refusal,
    remove_transfer_refusal, requested_transfer, settlement_payouts, start_energy_transfer,
    start_refusal, started_refusal, transfer_wf, with_charger_status, with_transfer_status,
};
use crate::reservation::{
    lemma_close_keeps, lemma_publish_keeps, lemma_remove_offer_keeps, lemma_remove_transfer_keeps,
    lemma_start_keeps, lemma_started_keeps, reservations_consistent,
};
use crate::msg::{
    ChargerStatus, Coin, EnergyTransfer, EnergyTransferOffer, Location, Payout, PlugType,
    TransferStatus,
};

verus! {

/// Ids strictly increase along the list, so each id names at most one record.
pub open spec fn offer_ids_ordered(s: Seq<EnergyTransferOffer>) -> bool {
    forall|i: int, j: int| 0 <= i < j < s.len() ==> s[i].id < s[j].id
}

pub open spec fn transfer_ids_ordered(s: Seq<EnergyTransfer>) -> bool {
    forall|i: int, j: int| 0 <= i < j < s.len() ==> s[i].id < s[j].id
}

pub open spec fn offer_position(s: Seq<EnergyTransferOffer>, id: u64) -> int {
    choose|i: int| 0 <= i < s.len() && s[i].id == id
}

pub open spec fn transfer_position(s: Seq<EnergyTransfer>, id: u64) -> int {
    choose|i: int| 0 <= i < s.len() && s[i].id == id
}

/// The offer with id `id`, if the list holds one.
pub open spec fn find_offer(s: Seq<EnergyTransferOffer>, id: u64) -> Option<EnergyTransferOffer> {
    if exists|i: int| 0 <= i < s.len() && s[i].id == id {
        Some(s[offer_position(s, id)])
    } else {
        None
    }
}

/// The transfer with id `id`, if the list holds one.
pub open spec fn find_transfer(s: Seq<EnergyTransfer>, id: u64) -> Option<EnergyTransfer> {
    if exists|i: int| 0 <= i < s.len() && s[i].id == id {
        Some(s[transfer_position(s, id)])
    } else {
        None
    }
}

pub proof fn lemma_offer_at(s: Seq<EnergyTransferOffer>, id: u64, i: int)
    requires
        offer_ids_ordered(s),
        0 <= i < s.len(),
        s[i].id == id,
    ensures
        offer_position(s, id) == i,
        find_offer(s, id) == Some(s[i]),
{
    let p = offer_position(s, id);
    assert(0 <= p < s.len() && s[p].id == id);
    if p < i {
        assert(s[p].id < s[i].id);
    } else if p > i {
        assert(s[i].id < s[p].id);
    }
}

pub proof fn lemma_transfer_at(s: Seq<EnergyTransfer>, id: u64, i: int)
    requires
        transfer_ids_ordered(s),
        0 <= i < s.len(),
        s[i].id == id,
    ensures
        transfer_position(s, id) == i,
        find_transfer(s, id) == Some(s[i]),
{
    let p = transfer_position(s, id);
    assert(0 <= p < s.len() && s[p].id == id);
    if p < i {
        assert(s[p].id < s[i].id);
    } else if p > i {
        assert(s[i].id < s[p].id);
    }
}

/// Finds the position of offer `id`.
pub fn locate_offer(offers: &Vec<EnergyTransferOffer>, id: u64) -> (r: Option<usize>)
    requires
        offer_ids_ordered(offers@),
    ensures
        match r {
            Some(i) => i < offers@.len() && offers@[i as int].id == id && offer_position(offers@, id)
                == i && find_offer(offers@, id) == Some(offers@[i as int]),
            None => find_offer(offers@, id) is None,
        },
{
    let mut i: usize = 0;
    while i < offers.len()
        invariant
            i <= offers@.len(),
            offer_ids_ordered(offers@),
            forall|j: int| 0 <= j < i ==> offers@[j].id != id,
        decreases offers@.len() - i,
    {
        if offers[i].id == id {
            proof {
                lemma_offer_at(offers@, id, i as int);
            }
            return Some(i);
        }
        i += 1;
    }
    None
}

/// Finds the position of transfer `id`.
pub fn locate_transfer(transfers: &Vec<EnergyTransfer>, id: u64) -> (r: Option<usize>)
    requires
        transfer_ids_ordered(transfers@),
    ensures
        match r {
            Some(i) => i < transfers@.len() && transfers@[i as int].id == id && transfer_position(
                transfers@,
                id,
            ) == i && find_transfer(transfers@, id) == Some(transfers@[i as int]),
            None => find_transfer(transfers@, id) is None,
        },
{
    let mut i: usize = 0;
    while i < transfers.len()
        invariant
            i <= transfers@.len(),
            transfer_ids_ordered(transfers@),
            forall|j: int| 0 <= j < i ==> transfers@[j].id != id,
        decreases transfers@.len() - i,
    {
        if transfers[i].id == id {
            proof {
                lemma_transfer_at(transfers@, id, i as int);
            }
            return Some(i);
        }
        i += 1;
    }
    None
}

/// Every stored transfer keeps its collateral equal to tariff times quantity.
pub open spec fn transfers_wf(s: Seq<EnergyTransfer>) -> bool {
    forall|i: int| 0 <= i < s.len() ==> #[trigger] transfer_wf(s[i])
}

/// What the store holds: the denomination, the two id counters, and the
/// offers and transfers in ascending id order.
pub struct StoreView {
    pub denom: String,
    pub offer_count: u64,
    pub transfer_count: u64,
    pub offers: Seq<EnergyTransferOffer>,
    pub transfers: Seq<EnergyTransfer>,
}

impl StoreView {
    /// Ids are unique, ascending and never above their counter, every
    /// transfer keeps its collateral invariant, and an offer is busy exactly
    /// when one active transfer holds it.
    pub open spec fn wf(self) -> bool {
        &&& offer_ids_ordered(self.offers)
        &&& forall|i: int| 0 <= i < self.offers.len() ==> #[trigger] self.offers[i].id <= self.offer_count
        &&& transfer_ids_ordered(self.transfers)
        &&& forall|i: int|
            0 <= i < self.transfers.len() ==> #[trigger] self.transfers[i].id <= self.transfer_count
        &&& transfers_wf(self.transfers)
        &&& reservations_consistent(self.offers, self.transfers)
    }

    pub open spec fn with_offers(self, offers: Seq<EnergyTransferOffer>) -> StoreView {
        StoreView {
            denom: self.denom,
            offer_count: self.offer_count,
            transfer_count: self.transfer_count,
            offers,
            transfers: self.transfers,
        }
    }

    pub open spec fn with_transfers(self, transfers: Seq<EnergyTransfer>) -> StoreView {
        StoreView {
            denom: self.denom,
            offer_count: self.offer_count,
            transfer_count: self.transfer_count,
            offers: self.offers,
            transfers,
        }
    }

    /// The offer that transfer `t` reserved, if both exist.
    pub open spec fn offer_of(self, t: Option<EnergyTransfer>) -> Option<EnergyTransferOffer> {
        match t {
            Some(t) => find_offer(self.offers, t.energy_transfer_offer_id),
            None => None,
        }
    }

    /// Deleting offer `id` on behalf of `sender`.
    pub open spec fn remove_offer_step(self, sender: String, id: u64) -> Result<(StoreView, ()), ContractError> {
        match remove_offer_refusal(sender, id, find_offer(self.offers, id)) {
            Some(e) => Err(e),
            None => Ok((self.with_offers(self.offers.remove(offer_position(self.offers, id))), ())),
        }
    }

    /// Reserving offer `offer_id`; the new transfer's id comes back.
    pub open spec fn start_step(
        self,
        driver: String,
        driver_check: Result<(), StdError>,
        offer_id: u64,
        energy_to_transfer: u64,
        funds: Vec<Coin>,
        now: Timestamp,
    ) -> Result<(StoreView, u64), ContractError> {
        let found = find_offer(self.offers, offer_id);
        match start_refusal(
            driver,
            driver_check,
            offer_id,
            energy_to_transfer,
            found,
            self.transfer_count,
            funds,
            self.denom,
        ) {
            Some(e) => Err(e),
            None => {
                let o = found.unwrap();
                let id = (self.transfer_count + 1) as u64;
                Ok(
                    (
                        StoreView {
                            denom: self.denom,
                            offer_count: self.offer_count,
                            transfer_count: id,
                            offers: self.offers.update(
                                offer_position(self.offers, offer_id),
                                with_charger_status(o, ChargerStatus::Busy),
                            ),
                            transfers: self.transfers.push(
                                requested_transfer(id, offer_id, o, driver, energy_to_transfer, now),
                            ),
                        },
                        id,
                    ),
                )
            },
        }
    }

    /// Marking transfer `id` as begun.
    pub open spec fn started_step(self, id: u64) -> Result<(StoreView, ()), ContractError> {
        let t = find_transfer(self.transfers, id);
        match started_refusal(id, t) {
            Some(e) => Err(e),
            None => Ok(
                (
                    self.with_transfers(
                        self.transfers.update(
                            transfer_position(self.transfers, id),
                            with_transfer_status(t.unwrap(), TransferStatus::Ongoing),
                        ),
                    ),
                    (),
                ),
            ),
        }
    }

    /// Transfer `id` replaced by `closed`, and its offer made active again.
    pub open spec fn closed_with(self, id: u64, closed: EnergyTransfer) -> StoreView {
        let o = self.offer_of(find_transfer(self.transfers, id)).unwrap();
        StoreView {
            denom: self.denom,
            offer_count: self.offer_count,
            transfer_count: self.transfer_count,
            offers: self.offers.update(
                offer_position(self.offers, o.id),
                with_charger_status(o, ChargerStatus::Active),
            ),
            transfers: self.transfers.update(transfer_position(self.transfers, id), closed),
        }
    }

    /// Cancelling transfer `id`; the refund comes back.
    pub open spec fn cancel_step(self, id: u64) -> Result<(StoreView, Seq<Payout>), ContractError> {
        let t = find_transfer(self.transfers, id);
        match cancel_refusal(id, t, self.offer_of(t)) {
            Some(e) => Err(e),
            None => Ok(
                (
                    self.closed_with(id, with_transfer_status(t.unwrap(), TransferStatus::Cancelled)),
                    payout_leg(t.unwrap().driver, t.unwrap().collateral as int),
                ),
            ),
        }
    }

    /// Settling transfer `id` after `used` units; the payouts come back.
    pub open spec fn complete_step(self, id: u64, used: u64, now: Timestamp) -> Result<
        (StoreView, Seq<Payout>),
        ContractError,
    > {
        let t = find_transfer(self.transfers, id);
        match completed_refusal(id, t, self.offer_of(t)) {
            Some(e) => Err(e),
            None => Ok(
                (
                    self.closed_with(id, paid_transfer(t.unwrap(), used, now)),
                    settlement_payouts(t.unwrap(), used),
                ),
            ),
        }
    }

    /// Deleting transfer `id`.
    pub open spec fn remove_transfer_step(self, id: u64) -> Result<(StoreView, ()), ContractError> {
        match remove_transfer_refusal(id, find_transfer(self.transfers, id)) {
            Some(e) => Err(e),
            None => Ok(
                (self.with_transfers(self.transfers.remove(transfer_position(self.transfers, id))), ()),
            ),
        }
    }
}

/// `after` and `r` are what `step` prescribes from `before`: on a refusal the
/// error, with nothing changed.
pub open spec fn follows<T>(
    before: StoreView,
    after: StoreView,
    r: Result<T, ContractError>,
    step: Result<(StoreView, T), ContractError>,
) -> bool {
    match step {
        Ok((v, out)) => after == v && r == Ok::<T, ContractError>(out),
        Err(e) => after == before && r == Err::<T, ContractError>(e),
    }
}

/// The payouts of a result, as a sequence.
pub open spec fn payouts_view(r: Result<Vec<Payout>, ContractError>) -> Result<Seq<Payout>, ContractError> {
    match r {
        Ok(p) => Ok(p@),
        Err(e) => Err(e),
    }
}

/// The records of one deployment, kept in memory. Every operation checks all
/// of its conditions before it changes anything, so a refused operation
/// leaves the store as it was.
pub struct Store {
    denom: String,
    offer_count: u64,
    transfer_count: u64,
    offers: Vec<EnergyTransferOffer>,
    transfers: Vec<EnergyTransfer>,
}

impl View for Store {
    type V = StoreView;

    closed spec fn view(&self) -> StoreView {
        StoreView {
            denom: self.denom,
            offer_count: self.offer_count,
            transfer_count: self.transfer_count,
            offers: self.offers@,
            transfers: self.transfers@,
        }
    }
}

proof fn lemma_remove_keeps_offers(s: Seq<EnergyTransferOffer>, i: int, count: u64)
    requires
        offer_ids_ordered(s),
        forall|k: int| 0 <= k < s.len() ==> #[trigger] s[k].id <= count,
        0 <= i < s.len(),
    ensures
        offer_ids_ordered(s.remove(i)),
        forall|k: int| 0 <= k < s.remove(i).len() ==> #[trigger] s.remove(i)[k].id <= count,
{
    let r = s.remove(i);
    assert forall|k: int| 0 <= k < r.len() implies r[k] == (if k < i { s[k] } else { s[k + 1] }) by {}
    assert forall|a: int, b: int| 0 <= a < b < r.len() implies r[a].id < r[b].id by {
        let a2 = if a < i { a } else { a + 1 };
        let b2 = if b < i { b } else { b + 1 };
        assert(s[a2].id < s[b2].id);
    }
    assert forall|k: int| 0 <= k < r.len() implies #[trigger] r[k].id <= count by {
        let k2 = if k < i { k } else { k + 1 };
        assert(s[k2].id <= count);
    }
}

proof fn lemma_remove_keeps_transfers(s: Seq<EnergyTransfer>, i: int, count: u64)
    requires
        transfer_ids_ordered(s),
        forall|k: int| 0 <= k < s.len() ==> #[trigger] s[k].id <= count,
        transfers_wf(s),
        0 <= i < s.len(),
    ensures
        transfer_ids_ordered(s.remove(i)),
        forall|k: int| 0 <= k < s.remove(i).len() ==> #[trigger] s.remove(i)[k].id <= count,
        transfers_wf(s.remove(i)),
{
    let r = s.remove(i);
    assert forall|k: int| 0 <= k < r.len() implies r[k] == (if k < i { s[k] } else { s[k + 1] }) by {}
    assert forall|a: int, b: int| 0 <= a < b < r.len() implies r[a].id < r[b].id by {
        let a2 = if a < i { a } else { a + 1 };
        let b2 = if b < i { b } else { b + 1 };
        assert(s[a2].id < s[b2].id);
    }
    assert forall|k: int| 0 <= k < r.len() implies #[trigger] r[k].id <= count by {
        let k2 = if k < i { k } else { k + 1 };
        assert(s[k2].id <= count);
    }
    assert forall|k: int| 0 <= k < r.len() implies #[trigger] transfer_wf(r[k]) by {
        let k2 = if k < i { k } else { k + 1 };
        assert(transfer_wf(s[k2]));
    }
}

proof fn lemma_update_keeps_offers(s: Seq<EnergyTransferOffer>, i: int, x: EnergyTransferOffer, count: u64)
    requires
        offer_ids_ordered(s),
        forall|k: int| 0 <= k < s.len() ==> #[trigger] s[k].id <= count,
        0 <= i < s.len(),
        x.id == s[i].id,
    ensures
        offer_ids_ordered(s.update(i, x)),
        forall|k: int| 0 <= k < s.update(i, x).len() ==> #[trigger] s.update(i, x)[k].id <= count,
{
    let r = s.update(i, x);
    assert forall|a: int, b: int| 0 <= a < b < r.len() implies r[a].id < r[b].id by {
        assert(s[a].id < s[b].id);
    }
    assert forall|k: int| 0 <= k < r.len() implies #[trigger] r[k].id <= count by {
        assert(s[k].id <= count);
    }
}

proof fn lemma_update_keeps_transfers(s: Seq<EnergyTransfer>, i: int, x: EnergyTransfer, count: u64)
    requires
        transfer_ids_ordered(s),
        forall|k: int| 0 <= k < s.len() ==> #[trigger] s[k].id <= count,
        transfers_wf(s),
        0 <= i < s.len(),
        x.id == s[i].id,
        transfer_wf(x),
    ensures
        transfer_ids_ordered(s.update(i, x)),
        forall|k: int| 0 <= k < s.update(i, x).len() ==> #[trigger] s.update(i, x)[k].id <= count,
        transfers_wf(s.update(i, x)),
{
    let r = s.update(i, x);
    assert forall|a: int, b: int| 0 <= a < b < r.len() implies r[a].id < r[b].id by {
        assert(s[a].id < s[b].id);
    }
    assert forall|k: int| 0 <= k < r.len() implies #[trigger] r[k].id <= count by {
        assert(s[k].id <= count);
    }
    assert forall|k: int| 0 <= k < r.len() implies #[trigger] transfer_wf(r[k]) by {
        if k != i {
            assert(transfer_wf(s[k]));
        }
    }
}

impl Store {
    /// An empty store for the denomination `denom`, with both counters at zero.
    pub fn new(denom: String) -> (r: Store)
        ensures
            r@ == (StoreView {
                denom,
                offer_count: 0,
                transfer_count: 0,
                offers: Seq::empty(),
                transfers: Seq::empty(),
            }),
            r@.wf(),
    {
        Store {
            denom,
            offer_count: 0,
            transfer_count: 0,
            offers: Vec::new(),
            transfers: Vec::new(),
        }
    }

    pub fn denom(&self) -> (r: &String)
        ensures
            *r == self@.denom,
    {
        &self.denom
    }

    pub fn offer_count(&self) -> (r: u64)
        ensures
            r == self@.offer_count,
    {
        self.offer_count
    }

    pub fn transfer_count(&self) -> (r: u64)
        ensures
            r == self@.transfer_count,
    {
        self.transfer_count
    }

    /// All offers, in ascending id order.
    pub fn offers(&self) -> (r: &Vec<EnergyTransferOffer>)
        ensures
            r@ == self@.offers,
    {
        &self.offers
    }

    /// All transfers, in ascending id order.
    pub fn transfers(&self) -> (r: &Vec<EnergyTransfer>)
        ensures
            r@ == self@.transfers,
    {
        &self.transfers
    }

    pub fn offer(&self, id: u64) -> (r: Option<&EnergyTransferOffer>)
        requires
            self@.wf(),
        ensures
            loaded(r) == find_offer(self@.offers, id),
    {
        match locate_offer(&self.offers, id) {
            Some(i) => Some(&self.offers[i]),
            None => None,
        }
    }

    pub fn transfer(&self, id: u64) -> (r: Option<&EnergyTransfer>)
        requires
            self@.wf(),
        ensures
            loaded(r) == find_transfer(self@.transfers, id),
    {
        match locate_transfer(&self.transfers, id) {
            Some(i) => Some(&self.transfers[i]),
            None => None,
        }
    }

    /// Publishes an offer of `owner` and returns its id.
    pub fn publish_offer(
        &mut self,
        owner: String,
        charger_id: String,
        location: Location,
        tariff: u64,
        name: String,
        plug_type: PlugType,
    ) -> (r: Result<u64, ContractError>)
        requires
            old(self)@.wf(),
        ensures
            final(self)@.wf(),
            r is Ok <==> (charger_id@.len() > 0 && name@.len() > 0 && old(self)@.offer_count < u64::MAX),
            (charger_id@.len() == 0 || name@.len() == 0) ==> (r matches Err(
                ContractError::CustomError { val },
            ) && val@ == "charger_id and name must not be empty"@),
            r is Err ==> final(self)@ == old(self)@,
            r matches Ok(id) ==> id == old(self)@.offer_count + 1 && final(self)@ == (StoreView {
                denom: old(self)@.denom,
                offer_count: id,
                transfer_count: old(self)@.transfer_count,
                offers: old(self)@.offers.push(
                    published_offer(id, owner, charger_id, location, tariff, name, plug_type),
                ),
                transfers: old(self)@.transfers,
            }),
    {
        match publish_energy_transfer_offer(
            self.offer_count,
            owner,
            charger_id,
            location,
            tariff,
            name,
            plug_type,
        ) {
            Err(e) => Err(e),
            Ok(offer) => {
                proof {
                    lemma_publish_keeps(self.offers@, self.transfers@, offer);
                }
                let id = offer.id;
                self.offer_count = id;
                self.offers.push(offer);
                Ok(id)
            },
        }
    }

    /// Deletes offer `id` on behalf of `sender`.
    pub fn remove_offer(&mut self, sender: String, id: u64) -> (r: Result<(), ContractError>)
        requires
            old(self)@.wf(),
        ensures
            final(self)@.wf(),
            follows(old(self)@, final(self)@, r, old(self)@.remove_offer_step(sender, id)),
    {
        let pos = locate_offer(&self.offers, id);
        let found = match pos {
            Some(i) => Some(&self.offers[i]),
            None => None,
        };
        match remove_energy_offer(sender, id, found) {
            Err(e) => Err(e),
            Ok(()) => {
                match pos {
                    Some(i) => {
                        proof {
                            lemma_remove_keeps_offers(self.offers@, i as int, self.offer_count);
                            lemma_remove_offer_keeps(self.offers@, self.transfers@, i as int);
                        }
                        self.offers.remove(i);
                    },
                    None => {},
                }
                Ok(())
            },
        }
    }

    /// Reserves offer `offer_id` for `driver` and returns the new transfer's id.
    /// `driver_check` is what the account validator said of `driver`; `funds`
    /// came with the request.
    pub fn start_transfer(
        &mut self,
        driver: String,
        driver_check: Result<(), StdError>,
        offer_id: u64,
        energy_to_transfer: u64,
        funds: Vec<Coin>,
        now: Timestamp,
    ) -> (r: Result<u64, ContractError>)
        requires
            old(self)@.wf(),
        ensures
            final(self)@.wf(),
            follows(
                old(self)@,
                final(self)@,
                r,
                old(self)@.start_step(driver, driver_check, offer_id, energy_to_transfer, funds, now),
            ),
    {
        let pos = locate_offer(&self.offers, offer_id);
        let found = match pos {
            Some(i) => Some(&self.offers[i]),
            None => None,
        };
        let outcome = start_energy_transfer(
            driver,
            driver_check,
            offer_id,
            energy_to_transfer,
            found,
            self.transfer_count,
            funds,
            &self.denom,
            now,
        );
        match outcome {
            Err(e) => Err(e),
            Ok((busy, transfer)) => {
                let i = match pos {
                    Some(i) => i,
                    None => {
                        return Err(ContractError::EnergyOfferNotFound(offer_id));
                    },
                };
                let id = transfer.id;
                proof {
                    lemma_start_keeps(self.offers@, self.transfers@, i as int, transfer);
                }
                self.offers.set(i, busy);
                self.transfer_count = id;
                self.transfers.push(transfer);
                proof {
                    let v = self@;
                    assert forall|k: int| 0 <= k < v.offers.len() implies #[trigger] v.offers[k].id
                        <= v.offer_count by {
                        assert(old(self)@.offers[k].id <= v.offer_count);
                    }
                    assert forall|a: int, b: int|
                        0 <= a < b < v.offers.len() implies v.offers[a].id < v.offers[b].id by {
                        assert(old(self)@.offers[a].id < old(self)@.offers[b].id);
                    }
                    assert forall|k: int| 0 <= k < v.transfers.len() implies #[trigger] v.transfers[k].id
                        <= v.transfer_count by {
                        if k < old(self)@.transfers.len() {
                            assert(old(self)@.transfers[k].id <= old(self)@.transfer_count);
                        }
                    }
                    assert forall|a: int, b: int|
                        0 <= a < b < v.transfers.len() implies v.transfers[a].id < v.transfers[b].id by {
                        assert(old(self)@.transfers[a].id <= old(self)@.transfer_count);
                        if b < old(self)@.transfers.len() {
                            assert(old(self)@.transfers[a].id < old(self)@.transfers[b].id);
                        }
                    }
                    assert forall|k: int| 0 <= k < v.transfers.len() implies #[trigger] transfer_wf(
                        v.transfers[k],
                    ) by {
                        if k < old(self)@.transfers.len() {
                            assert(transfer_wf(old(self)@.transfers[k]));
                        }
                    }
                }
                Ok(id)
            },
        }
    }

    /// Records that the session of transfer `id` has begun.
    pub fn mark_transfer_started(&mut self, id: u64) -> (r: Result<(), ContractError>)
        requires
            old(self)@.wf(),
        ensures
            final(self)@.wf(),
            follows(old(self)@, final(self)@, r, old(self)@.started_step(id)),
    {
        let pos = locate_transfer(&self.transfers, id);
        let found = match pos {
            Some(i) => Some(&self.transfers[i]),
            None => None,
        };
        match energy_transfer_started(id, found) {
            Err(e) => Err(e),
            Ok(next) => {
                let i = match pos {
                    Some(i) => i,
                    None => {
                        return Err(ContractError::EnergyTransferNotFound(id));
                    },
                };
                proof {
                    assert(transfer_wf(self.transfers@[i as int]));
                    lemma_update_keeps_transfers(self.transfers@, i as int, next, self.transfer_count);
                    lemma_started_keeps(self.offers@, self.transfers@, i as int);
                }
                self.transfers.set(i, next);
                Ok(())
            },
        }
    }

    /// Cancels transfer `id`, frees its offer and returns the refund to the driver.
    pub fn cancel_transfer(&mut self, id: u64) -> (r: Result<Vec<Payout>, ContractError>)
        requires
            old(self)@.wf(),
        ensures
            final(self)@.wf(),
            follows(old(self)@, final(self)@, payouts_view(r), old(self)@.cancel_step(id)),
    {
        let tpos = locate_transfer(&self.transfers, id);
        let (found_t, opos) = match tpos {
            Some(i) => (Some(&self.transfers[i]), locate_offer(&self.offers, self.transfers[i].energy_transfer_offer_id)),
            None => (None, None),
        };
        let found_o = match opos {
            Some(j) => Some(&self.offers[j]),
            None => None,
        };
        match cancel_energy_transfer(id, found_t, found_o) {
            Err(e) => Err(e),
            Ok((cancelled, active, payouts)) => {
                let (i, j) = match (tpos, opos) {
                    (Some(i), Some(j)) => (i, j),
                    _ => {
                        return Err(ContractError::EnergyTransferNotFound(id));
                    },
                };
                proof {
                    assert(transfer_wf(self.transfers@[i as int]));
                    lemma_update_keeps_transfers(self.transfers@, i as int, cancelled, self.transfer_count);
                    lemma_close_keeps(self.offers@, self.transfers@, i as int, j as int, cancelled);
                    lemma_update_keeps_offers(self.offers@, j as int, active, self.offer_count);
                }
                self.transfers.set(i, cancelled);
                self.offers.set(j, active);
                Ok(payouts)
            },
        }
    }

    /// Settles transfer `id` after `used_service_units` units, frees its offer
    /// and returns the payouts.
    pub fn complete_transfer(&mut self, id: u64, used_service_units: u64, now: Timestamp) -> (r: Result<
        Vec<Payout>,
        ContractError,
    >)
        requires
            old(self)@.wf(),
        ensures
            final(self)@.wf(),
            follows(
                old(self)@,
                final(self)@,
                payouts_view(r),
                old(self)@.complete_step(id, used_service_units, now),
            ),
    {
        let tpos = locate_transfer(&self.transfers, id);
        let (found_t, opos) = match tpos {
            Some(i) => (Some(&self.transfers[i]), locate_offer(&self.offers, self.transfers[i].energy_transfer_offer_id)),
            None => (None, None),
        };
        let found_o = match opos {
            Some(j) => Some(&self.offers[j]),
            None => None,
        };
        proof {
            if tpos is Some {
                assert(transfer_wf(self.transfers@[tpos.unwrap() as int]));
            }
        }
        match energy_transfer_completed(id, used_service_units, found_t, found_o, now) {
            Err(e) => Err(e),
            Ok((paid, active, payouts)) => {
                let (i, j) = match (tpos, opos) {
                    (Some(i), Some(j)) => (i, j),
                    _ => {
                        return Err(ContractError::EnergyTransferNotFound(id));
                    },
                };
                proof {
                    assert(transfer_wf(self.transfers@[i as int]));
                    lemma_update_keeps_transfers(self.transfers@, i as int, paid, self.transfer_count);
                    lemma_close_keeps(self.offers@, self.transfers@, i as int, j as int, paid);
                    lemma_update_keeps_offers(self.offers@, j as int, active, self.offer_count);
                }
                self.transfers.set(i, paid);
                self.offers.set(j, active);
                Ok(payouts)
            },
        }
    }

    /// Deletes transfer `id` once it is paid or cancelled.
    pub fn remove_transfer(&mut self, id: u64) -> (r: Result<(), ContractError>)
        requires
            old(self)@.wf(),
        ensures
            final(self)@.wf(),
            follows(old(self)@, final(self)@, r, old(self)@.remove_transfer_step(id)),
    {
        let pos = locate_transfer(&self.transfers, id);
        let found = match pos {
            Some(i) => Some(&self.transfers[i]),
            None => None,
        };
        match remove_energy_transfer(id, found) {
            Err(e) => Err(e),
            Ok(()) => {
                match pos {
                    Some(i) => {
                        proof {
                            lemma_remove_keeps_transfers(self.transfers@, i as int, self.transfer_count);
                            lemma_remove_transfer_keeps(self.offers@, self.transfers@, i as int);
                        }
                        self.transfers.remove(i);
                    },
                    None => {},
                }
                Ok(())
            },
        }
    }
}

} // verus!
