use vstd::prelude::*;

use crate::execute::{with_charger_status, with_transfer_status};
use crate::msg::{ChargerStatus, EnergyTransfer, EnergyTransferOffer, TransferStatus};
use crate::store::offer_ids_ordered;

verus! {

/// A transfer that still holds its charger.
pub open spec fn is_active(t: EnergyTransfer) -> bool {
    t.status == TransferStatus::Requested || t.status == TransferStatus::Ongoing
}

/// The list holds offer `id`, and it is busy.
pub open spec fn offer_busy(offers: Seq<EnergyTransferOffer>, id: u64) -> bool {
    exists|j: int|
        #![trigger offers[j]]
        0 <= j < offers.len() && offers[j].id == id && offers[j].charger_status == ChargerStatus::Busy
}

/// Some active transfer holds offer `id`.
pub open spec fn held(transfers: Seq<EnergyTransfer>, id: u64) -> bool {
    exists|i: int|
        #![trigger transfers[i]]
        0 <= i < transfers.len() && is_active(transfers[i]) && transfers[i].energy_transfer_offer_id == id
}

/// An offer is busy exactly when one active transfer holds it: every active
/// transfer holds a busy offer, every busy offer is held, and no two active
/// transfers hold the same offer.
pub open spec fn reservations_consistent(offers: Seq<EnergyTransferOffer>, transfers: Seq<EnergyTransfer>) -> bool {
    &&& forall|i: int|
        #![trigger transfers[i]]
        0 <= i < transfers.len() && is_active(transfers[i]) ==> offer_busy(
            offers,
            transfers[i].energy_transfer_offer_id,
        )
    &&& forall|j: int|
        #![trigger offers[j]]
        0 <= j < offers.len() && offers[j].charger_status == ChargerStatus::Busy ==> held(
            transfers,
            offers[j].id,
        )
    &&& forall|i: int, k: int|
        #![trigger transfers[i], transfers[k]]
        0 <= i < transfers.len() && 0 <= k < transfers.len() && is_active(transfers[i]) && is_active(
            transfers[k],
        ) && transfers[i].energy_transfer_offer_id == transfers[k].energy_transfer_offer_id ==> i == k
}

pub proof fn lemma_publish_keeps(offers: Seq<EnergyTransferOffer>, transfers: Seq<EnergyTransfer>, o: EnergyTransferOffer)
    requires
        reservations_consistent(offers, transfers),
        o.charger_status == ChargerStatus::Active,
    ensures
        reservations_consistent(offers.push(o), transfers),
{
    let n = offers.push(o);
    assert forall|i: int|
        #![trigger transfers[i]]
        0 <= i < transfers.len() && is_active(transfers[i]) implies offer_busy(
            n,
            transfers[i].energy_transfer_offer_id,
        ) by {
        let j = choose|j: int|
            #![trigger offers[j]]
            0 <= j < offers.len() && offers[j].id == transfers[i].energy_transfer_offer_id
                && offers[j].charger_status == ChargerStatus::Busy;
        assert(n[j] == offers[j]);
    }
    assert forall|j: int|
        #![trigger n[j]]
        0 <= j < n.len() && n[j].charger_status == ChargerStatus::Busy implies held(transfers, n[j].id) by {
        assert(j < offers.len());
        assert(n[j] == offers[j]);
    }
}

pub proof fn lemma_remove_offer_keeps(offers: Seq<EnergyTransferOffer>, transfers: Seq<EnergyTransfer>, p: int)
    requires
        reservations_consistent(offers, transfers),
        0 <= p < offers.len(),
        offers[p].charger_status != ChargerStatus::Busy,
    ensures
        reservations_consistent(offers.remove(p), transfers),
{
    let n = offers.remove(p);
    assert forall|k: int| 0 <= k < n.len() implies n[k] == (if k < p { offers[k] } else { offers[k + 1] }) by {}
    assert forall|i: int|
        #![trigger transfers[i]]
        0 <= i < transfers.len() && is_active(transfers[i]) implies offer_busy(
            n,
            transfers[i].energy_transfer_offer_id,
        ) by {
        let j = choose|j: int|
            #![trigger offers[j]]
            0 <= j < offers.len() && offers[j].id == transfers[i].energy_transfer_offer_id
                && offers[j].charger_status == ChargerStatus::Busy;
        assert(j != p);
        let j2 = if j < p { j } else { j - 1 };
        assert(n[j2] == offers[j]);
    }
    assert forall|j: int|
        #![trigger n[j]]
        0 <= j < n.len() && n[j].charger_status == ChargerStatus::Busy implies held(transfers, n[j].id) by {
        let j2 = if j < p { j } else { j + 1 };
        assert(n[j] == offers[j2]);
    }
}

pub proof fn lemma_start_keeps(
    offers: Seq<EnergyTransferOffer>,
    transfers: Seq<EnergyTransfer>,
    p: int,
    t: EnergyTransfer,
)
    requires
        reservations_consistent(offers, transfers),
        offer_ids_ordered(offers),
        0 <= p < offers.len(),
        offers[p].charger_status == ChargerStatus::Active,
        t.status == TransferStatus::Requested,
        t.energy_transfer_offer_id == offers[p].id,
    ensures
        reservations_consistent(
            offers.update(p, with_charger_status(offers[p], ChargerStatus::Busy)),
            transfers.push(t),
        ),
{
    let n = offers.update(p, with_charger_status(offers[p], ChargerStatus::Busy));
    let m = transfers.push(t);
    let last = transfers.len() as int;
    assert forall|i: int|
        #![trigger m[i]]
        0 <= i < m.len() && is_active(m[i]) implies offer_busy(n, m[i].energy_transfer_offer_id) by {
        if i == last {
            assert(n[p].id == t.energy_transfer_offer_id);
        } else {
            assert(m[i] == transfers[i]);
            let j = choose|j: int|
                #![trigger offers[j]]
                0 <= j < offers.len() && offers[j].id == transfers[i].energy_transfer_offer_id
                    && offers[j].charger_status == ChargerStatus::Busy;
            assert(j != p);
            assert(n[j] == offers[j]);
        }
    }
    assert forall|j: int|
        #![trigger n[j]]
        0 <= j < n.len() && n[j].charger_status == ChargerStatus::Busy implies held(m, n[j].id) by {
        if j == p {
            assert(m[last] == t);
        } else {
            assert(n[j] == offers[j]);
            let i = choose|i: int|
                #![trigger transfers[i]]
                0 <= i < transfers.len() && is_active(transfers[i])
                    && transfers[i].energy_transfer_offer_id == offers[j].id;
            assert(m[i] == transfers[i]);
        }
    }
    assert forall|i: int, k: int|
        #![trigger m[i], m[k]]
        0 <= i < m.len() && 0 <= k < m.len() && is_active(m[i]) && is_active(m[k])
            && m[i].energy_transfer_offer_id == m[k].energy_transfer_offer_id implies i == k by {
        if i != k && (i == last || k == last) {
            let other = if i == last { k } else { i };
            assert(m[other] == transfers[other]);
            assert(is_active(transfers[other]));
            let j = choose|j: int|
                #![trigger offers[j]]
                0 <= j < offers.len() && offers[j].id == transfers[other].energy_transfer_offer_id
                    && offers[j].charger_status == ChargerStatus::Busy;
            if j < p {
                assert(offers[j].id < offers[p].id);
            } else if j > p {
                assert(offers[p].id < offers[j].id);
            }
        } else if i != k {
            assert(m[i] == transfers[i] && m[k] == transfers[k]);
        }
    }
}

pub proof fn lemma_started_keeps(offers: Seq<EnergyTransferOffer>, transfers: Seq<EnergyTransfer>, i: int)
    requires
        reservations_consistent(offers, transfers),
        0 <= i < transfers.len(),
        transfers[i].status == TransferStatus::Requested,
    ensures
        reservations_consistent(
            offers,
            transfers.update(i, with_transfer_status(transfers[i], TransferStatus::Ongoing)),
        ),
{
    let m = transfers.update(i, with_transfer_status(transfers[i], TransferStatus::Ongoing));
    assert forall|k: int| 0 <= k < m.len() implies is_active(m[k]) == is_active(transfers[k])
        && m[k].energy_transfer_offer_id == transfers[k].energy_transfer_offer_id by {}
    assert forall|j: int|
        #![trigger offers[j]]
        0 <= j < offers.len() && offers[j].charger_status == ChargerStatus::Busy implies held(m, offers[j].id) by {
        let k = choose|k: int|
            #![trigger transfers[k]]
            0 <= k < transfers.len() && is_active(transfers[k])
                && transfers[k].energy_transfer_offer_id == offers[j].id;
        assert(is_active(m[k]));
    }
}

/// Closing an active transfer (paying or cancelling it) and freeing its offer.
pub proof fn lemma_close_keeps(
    offers: Seq<EnergyTransferOffer>,
    transfers: Seq<EnergyTransfer>,
    i: int,
    q: int,
    closed: EnergyTransfer,
)
    requires
        reservations_consistent(offers, transfers),
        offer_ids_ordered(offers),
        0 <= i < transfers.len(),
        0 <= q < offers.len(),
        is_active(transfers[i]),
        !is_active(closed),
        offers[q].id == transfers[i].energy_transfer_offer_id,
    ensures
        reservations_consistent(
            offers.update(q, with_charger_status(offers[q], ChargerStatus::Active)),
            transfers.update(i, closed),
        ),
{
    let n = offers.update(q, with_charger_status(offers[q], ChargerStatus::Active));
    let m = transfers.update(i, closed);
    assert forall|k: int|
        #![trigger m[k]]
        0 <= k < m.len() && is_active(m[k]) implies offer_busy(n, m[k].energy_transfer_offer_id) by {
        assert(k != i);
        assert(m[k] == transfers[k]);
        assert(transfers[k].energy_transfer_offer_id != transfers[i].energy_transfer_offer_id);
        let j = choose|j: int|
            #![trigger offers[j]]
            0 <= j < offers.len() && offers[j].id == transfers[k].energy_transfer_offer_id
                && offers[j].charger_status == ChargerStatus::Busy;
        assert(j != q);
        assert(n[j] == offers[j]);
    }
    assert forall|j: int|
        #![trigger n[j]]
        0 <= j < n.len() && n[j].charger_status == ChargerStatus::Busy implies held(m, n[j].id) by {
        assert(j != q);
        assert(n[j] == offers[j]);
        let k = choose|k: int|
            #![trigger transfers[k]]
            0 <= k < transfers.len() && is_active(transfers[k])
                && transfers[k].energy_transfer_offer_id == offers[j].id;
        if j < q {
            assert(offers[j].id < offers[q].id);
        } else {
            assert(offers[q].id < offers[j].id);
        }
        assert(k != i);
        assert(m[k] == transfers[k]);
    }
    assert forall|a: int, b: int|
        #![trigger m[a], m[b]]
        0 <= a < m.len() && 0 <= b < m.len() && is_active(m[a]) && is_active(m[b])
            && m[a].energy_transfer_offer_id == m[b].energy_transfer_offer_id implies a == b by {
        assert(a != i && b != i);
        assert(m[a] == transfers[a] && m[b] == transfers[b]);
    }
}

pub proof fn lemma_remove_transfer_keeps(offers: Seq<EnergyTransferOffer>, transfers: Seq<EnergyTransfer>, i: int)
    requires
        reservations_consistent(offers, transfers),
        0 <= i < transfers.len(),
        !is_active(transfers[i]),
    ensures
        reservations_consistent(offers, transfers.remove(i)),
{
    let m = transfers.remove(i);
    assert forall|k: int| 0 <= k < m.len() implies m[k] == (if k < i { transfers[k] } else { transfers[k + 1] }) by {}
    assert forall|k: int|
        #![trigger m[k]]
        0 <= k < m.len() && is_active(m[k]) implies offer_busy(offers, m[k].energy_transfer_offer_id) by {
        let k2 = if k < i { k } else { k + 1 };
        assert(m[k] == transfers[k2]);
    }
    assert forall|j: int|
        #![trigger offers[j]]
        0 <= j < offers.len() && offers[j].charger_status == ChargerStatus::Busy implies held(m, offers[j].id) by {
        let k = choose|k: int|
            #![trigger transfers[k]]
            0 <= k < transfers.len() && is_active(transfers[k])
                && transfers[k].energy_transfer_offer_id == offers[j].id;
        assert(k != i);
        let k2 = if k < i { k } else { k - 1 };
        assert(m[k2] == transfers[k]);
    }
    assert forall|a: int, b: int|
        #![trigger m[a], m[b]]
        0 <= a < m.len() && 0 <= b < m.len() && is_active(m[a]) && is_active(m[b])
            && m[a].energy_transfer_offer_id == m[b].energy_transfer_offer_id implies a == b by {
        let a2 = if a < i { a } else { a + 1 };
        let b2 = if b < i { b } else { b + 1 };
        assert(m[a] == transfers[a2] && m[b] == transfers[b2]);
    }
}

} // verus!
