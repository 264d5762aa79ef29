use vstd::prelude::*;

use cosmwasm_std::{StdError, Timestamp};

use crate::error::ContractError;
use crate::execute::{
    cancel_refusal, completed_refusal, funds_match, paid_transfer, remove_offer_refusal,
    remove_transfer_refusal, start_refusal, with_transfer_status,
};
use crate::msg::{ChargerStatus, Coin, EnergyTransfer, EnergyTransferOffer, TransferStatus};
use crate::store::{find_transfer, lemma_transfer_at, transfer_ids_ordered, transfer_position, StoreView};

verus! {

/// Once a reservation passes every other check, funds that are not exactly
/// `tariff * energy_to_transfer` in the configured denomination are refused
/// with `InvalidFunds`, whatever the quantity.
pub proof fn lemma_start_refuses_wrong_funds(
    driver: String,
    energy_transfer_offer_id: u64,
    energy_to_transfer: u64,
    offer: EnergyTransferOffer,
    transfer_count: u64,
    funds: Vec<Coin>,
    denom: String,
)
    requires
        driver@.len() > 0,
        energy_to_transfer > 0,
        offer.charger_status == ChargerStatus::Active,
        transfer_count < u64::MAX,
        offer.tariff * energy_to_transfer <= u64::MAX,
        !funds_match(funds@, denom@, offer.tariff * energy_to_transfer),
    ensures
        start_refusal(
            driver,
            Ok::<(), StdError>(()),
            energy_transfer_offer_id,
            energy_to_transfer,
            Some(offer),
            transfer_count,
            funds,
            denom,
        ) == Some(
            ContractError::InvalidFunds(
                Coin { denom, amount: (offer.tariff * energy_to_transfer) as u128 },
                funds,
            ),
        ),
{
}

/// A transfer that was settled once cannot be settled again: the second
/// completion finds it `Paid` and is refused.
pub proof fn lemma_complete_not_repeatable(
    energy_transfer_id: u64,
    used_first: u64,
    used_second: u64,
    transfer: EnergyTransfer,
    offer: Option<EnergyTransferOffer>,
    offer_later: Option<EnergyTransferOffer>,
    now: Timestamp,
    later: Timestamp,
)
    requires
        completed_refusal(energy_transfer_id, Some(transfer), offer) is None,
    ensures
        completed_refusal(
            energy_transfer_id,
            Some(paid_transfer(transfer, used_first, now)),
            offer_later,
        ) == Some(
            ContractError::InvalidEnergyTransferMultipleStatuses(
                TransferStatus::Requested,
                TransferStatus::Ongoing,
                TransferStatus::Paid,
            ),
        ),
{
}

/// A transfer that was cancelled once cannot be cancelled again: the second
/// cancellation expects `Requested` and finds `Cancelled`.
pub proof fn lemma_cancel_not_repeatable(
    energy_transfer_id: u64,
    transfer: EnergyTransfer,
    offer: Option<EnergyTransferOffer>,
    offer_later: Option<EnergyTransferOffer>,
)
    requires
        cancel_refusal(energy_transfer_id, Some(transfer), offer) is None,
    ensures
        cancel_refusal(
            energy_transfer_id,
            Some(with_transfer_status(transfer, TransferStatus::Cancelled)),
            offer_later,
        ) == Some(
            ContractError::InvalidEnergyTransferStatus(
                TransferStatus::Requested,
                TransferStatus::Cancelled,
            ),
        ),
{
}

/// A busy offer is never removed, whoever asks; its owner is told that the
/// charger status is wrong.
pub proof fn lemma_busy_offer_not_removable(sender: String, energy_offer_id: u64, offer: EnergyTransferOffer)
    requires
        offer.charger_status == ChargerStatus::Busy,
    ensures
        remove_offer_refusal(sender, energy_offer_id, Some(offer)) is Some,
        sender@ == offer.owner@ ==> remove_offer_refusal(sender, energy_offer_id, Some(offer))
            == Some(
            ContractError::InvalidChargerMultipleStatuses(
                ChargerStatus::Active,
                ChargerStatus::Inactive,
                ChargerStatus::Busy,
            ),
        ),
{
}

/// A transfer may be removed exactly when it is paid or cancelled.
pub proof fn lemma_remove_transfer_only_when_settled(energy_transfer_id: u64, transfer: EnergyTransfer)
    ensures
        remove_transfer_refusal(energy_transfer_id, Some(transfer)) is None <==> (transfer.status
            == TransferStatus::Paid || transfer.status == TransferStatus::Cancelled),
{
}

/// In a store, a transfer whose first completion succeeded refuses a second
/// one, whatever usage and time it reports, because it is now `Paid`.
pub proof fn lemma_store_complete_not_repeatable(
    v: StoreView,
    id: u64,
    used_first: u64,
    used_second: u64,
    now: Timestamp,
    later: Timestamp,
)
    requires
        v.wf(),
        v.complete_step(id, used_first, now) is Ok,
    ensures
        v.complete_step(id, used_first, now)->Ok_0.0.complete_step(id, used_second, later) == Err::<
            (StoreView, Seq<crate::msg::Payout>),
            ContractError,
        >(
            ContractError::InvalidEnergyTransferMultipleStatuses(
                TransferStatus::Requested,
                TransferStatus::Ongoing,
                TransferStatus::Paid,
            ),
        ),
{
    let t = find_transfer(v.transfers, id).unwrap();
    lemma_closed_record_found(v, id, paid_transfer(t, used_first, now));
}

/// In a store, a cancelled transfer refuses a second cancellation: it
/// expects `Requested` and finds `Cancelled`.
pub proof fn lemma_store_cancel_not_repeatable(v: StoreView, id: u64)
    requires
        v.wf(),
        v.cancel_step(id) is Ok,
    ensures
        v.cancel_step(id)->Ok_0.0.cancel_step(id) == Err::<(StoreView, Seq<crate::msg::Payout>), ContractError>(
            ContractError::InvalidEnergyTransferStatus(
                TransferStatus::Requested,
                TransferStatus::Cancelled,
            ),
        ),
{
    let t = find_transfer(v.transfers, id).unwrap();
    lemma_closed_record_found(v, id, with_transfer_status(t, TransferStatus::Cancelled));
}

/// After transfer `id` is replaced by a record with the same id, a lookup of
/// `id` finds that record.
proof fn lemma_closed_record_found(v: StoreView, id: u64, closed: EnergyTransfer)
    requires
        v.wf(),
        find_transfer(v.transfers, id) is Some,
        closed.id == id,
    ensures
        find_transfer(v.closed_with(id, closed).transfers, id) == Some(closed),
{
    let s = v.transfers;
    let p = transfer_position(s, id);
    assert(0 <= p < s.len() && s[p].id == id);
    let n = s.update(p, closed);
    assert(v.closed_with(id, closed).transfers == n);
    assert forall|a: int, b: int| 0 <= a < b < n.len() implies n[a].id < n[b].id by {
        assert(s[a].id < s[b].id);
    }
    assert(transfer_ids_ordered(n));
    lemma_transfer_at(n, id, p);
}

} // verus!
