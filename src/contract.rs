use vstd::prelude::*;

use cosmwasm_std::{StdError, Timestamp};

use crate::error::ContractError;
use crate::execute::published_offer;
use crate::msg::{ExecuteMsg, InstantiateMsg, MessageInfo, Payout, QueryAnswer, QueryMsg};
use crate::query::{
    offer_owned_by, query_all_energy_transfer_offers, query_all_energy_transfers, query_denom,
    query_energy_transfer, query_energy_transfer_offer, query_energy_transfer_offers,
    query_energy_transfers, query_own_energy_transfers, transfer_of_driver_in, transfer_owned_by,
};
use crate::store::{find_offer, find_transfer, follows, payouts_view, Store, StoreView};

verus! {

/// A step that hands out no payouts.
pub open spec fn with_no_payouts<T>(step: Result<(StoreView, T), ContractError>) -> Result<
    (StoreView, Seq<Payout>),
    ContractError,
> {
    match step {
        Ok((v, _)) => Ok((v, Seq::empty())),
        Err(e) => Err(e),
    }
}

/// Sets up a deployment for the denomination of `msg`, with no records and
/// both counters at zero.
pub fn instantiate(msg: InstantiateMsg) -> (r: Store)
    ensures
        r@ == (StoreView {
            denom: msg.denom,
            offer_count: 0,
            transfer_count: 0,
            offers: Seq::empty(),
            transfers: Seq::empty(),
        }),
        r@.wf(),
{
    Store::new(msg.denom)
}

/// Runs one mutating operation and returns the payouts it orders.
/// `driver_check` is what the account validator said of the driver that a
/// `StartEnergyTransfer` names; the other operations ignore it.
pub fn execute(
    store: &mut Store,
    now: Timestamp,
    info: MessageInfo,
    driver_check: Result<(), StdError>,
    msg: ExecuteMsg,
) -> (r: Result<Vec<Payout>, ContractError>)
    requires
        old(store)@.wf(),
    ensures
        final(store)@.wf(),
        match msg {
            ExecuteMsg::PublishEnergyTransferOffer { charger_id, location, tariff, name, plug_type } => {
                &&& r is Ok <==> (charger_id@.len() > 0 && name@.len() > 0 && old(store)@.offer_count
                    < u64::MAX)
                &&& (charger_id@.len() == 0 || name@.len() == 0) ==> (r matches Err(
                    ContractError::CustomError { val },
                ) && val@ == "charger_id and name must not be empty"@)
                &&& r is Err ==> final(store)@ == old(store)@
                &&& r is Ok ==> r->Ok_0@.len() == 0 && final(store)@ == (StoreView {
                    denom: old(store)@.denom,
                    offer_count: (old(store)@.offer_count + 1) as u64,
                    transfer_count: old(store)@.transfer_count,
                    offers: old(store)@.offers.push(
                        published_offer(
                            (old(store)@.offer_count + 1) as u64,
                            info.sender,
                            charger_id,
                            location,
                            tariff,
                            name,
                            plug_type,
                        ),
                    ),
                    transfers: old(store)@.transfers,
                })
            },
            ExecuteMsg::RemoveEnergyOffer { energy_offer_id } => follows(
                old(store)@,
                final(store)@,
                payouts_view(r),
                with_no_payouts(old(store)@.remove_offer_step(info.sender, energy_offer_id)),
            ),
            ExecuteMsg::StartEnergyTransfer { driver, energy_transfer_offer_id, energy_to_transfer } =>
                follows(
                old(store)@,
                final(store)@,
                payouts_view(r),
                with_no_payouts(
                    old(store)@.start_step(
                        driver,
                        driver_check,
                        energy_transfer_offer_id,
                        energy_to_transfer,
                        info.funds,
                        now,
                    ),
                ),
            ),
            ExecuteMsg::EnergyTransferStarted { energy_transfer_id } => follows(
                old(store)@,
                final(store)@,
                payouts_view(r),
                with_no_payouts(old(store)@.started_step(energy_transfer_id)),
            ),
            ExecuteMsg::EnergyTransferCompleted { energy_transfer_id, used_service_units } => follows(
                old(store)@,
                final(store)@,
                payouts_view(r),
                old(store)@.complete_step(energy_transfer_id, used_service_units, now),
            ),
            ExecuteMsg::CancelEnergyTransfer { energy_transfer_id } => follows(
                old(store)@,
                final(store)@,
                payouts_view(r),
                old(store)@.cancel_step(energy_transfer_id),
            ),
            ExecuteMsg::RemoveEnergyTransfer { energy_transfer_id } => follows(
                old(store)@,
                final(store)@,
                payouts_view(r),
                with_no_payouts(old(store)@.remove_transfer_step(energy_transfer_id)),
            ),
        },
{
    match msg {
        ExecuteMsg::PublishEnergyTransferOffer { charger_id, location, tariff, name, plug_type } => {
            match store.publish_offer(info.sender, charger_id, location, tariff, name, plug_type) {
                Ok(_) => Ok(Vec::new()),
                Err(e) => Err(e),
            }
        },
        ExecuteMsg::RemoveEnergyOffer { energy_offer_id } => {
            match store.remove_offer(info.sender, energy_offer_id) {
                Ok(()) => Ok(Vec::new()),
                Err(e) => Err(e),
            }
        },
        ExecuteMsg::StartEnergyTransfer { driver, energy_transfer_offer_id, energy_to_transfer } => {
            match store.start_transfer(
                driver,
                driver_check,
                energy_transfer_offer_id,
                energy_to_transfer,
                info.funds,
                now,
            ) {
                Ok(_) => Ok(Vec::new()),
                Err(e) => Err(e),
            }
        },
        ExecuteMsg::EnergyTransferStarted { energy_transfer_id } => {
            match store.mark_transfer_started(energy_transfer_id) {
                Ok(()) => Ok(Vec::new()),
                Err(e) => Err(e),
            }
        },
        ExecuteMsg::EnergyTransferCompleted { energy_transfer_id, used_service_units } => {
            store.complete_transfer(energy_transfer_id, used_service_units, now)
        },
        ExecuteMsg::CancelEnergyTransfer { energy_transfer_id } => {
            store.cancel_transfer(energy_transfer_id)
        },
        ExecuteMsg::RemoveEnergyTransfer { energy_transfer_id } => {
            match store.remove_transfer(energy_transfer_id) {
                Ok(()) => Ok(Vec::new()),
                Err(e) => Err(e),
            }
        },
    }
}

/// Answers one read operation. Only the two lookups by id can fail, with
/// the not-found error of their record kind.
pub fn query(store: &Store, msg: QueryMsg) -> (r: Result<QueryAnswer, ContractError>)
    requires
        store@.wf(),
    ensures
        match msg {
            QueryMsg::Denom {} => r matches Ok(QueryAnswer::Denom(d)) && d.denom == store@.denom,
            QueryMsg::EnergyTransferOffer { id } => match find_offer(store@.offers, id) {
                Some(o) => r matches Ok(QueryAnswer::EnergyTransferOffer(a)) && a.energy_transfer_offer
                    == o,
                None => r == Err::<QueryAnswer, ContractError>(ContractError::EnergyOfferNotFound(id)),
            },
            QueryMsg::AllEnergyTransferOffers {} => r matches Ok(
                QueryAnswer::AllEnergyTransferOffers(a),
            ) && a.energy_transfer_offers@ == store@.offers,
            QueryMsg::EnergyTransfer { id } => match find_transfer(store@.transfers, id) {
                Some(t) => r matches Ok(QueryAnswer::EnergyTransfer(a)) && a.energy_transfer == t,
                None => r == Err::<QueryAnswer, ContractError>(
                    ContractError::EnergyTransferNotFound(id),
                ),
            },
            QueryMsg::AllEnergyTransfers {} => r matches Ok(QueryAnswer::AllEnergyTransfers(a))
                && a.energy_transfers@ == store@.transfers,
            QueryMsg::EnergyTransferOffers { owner } => r matches Ok(
                QueryAnswer::EnergyTransferOffers(a),
            ) && a.energy_transfer_offers@ == store@.offers.filter(offer_owned_by(owner@)),
            QueryMsg::OwnEnergyTransfers { driver, transfer_status } => r matches Ok(
                QueryAnswer::OwnEnergyTransfers(a),
            ) && a.energy_transfers@ == store@.transfers.filter(
                transfer_of_driver_in(driver@, transfer_status),
            ),
            QueryMsg::EnergyTransfers { owner } => r matches Ok(QueryAnswer::EnergyTransfers(a))
                && a.energy_transfers@ == store@.transfers.filter(transfer_owned_by(owner@)),
        },
{
    match msg {
        QueryMsg::Denom {} => Ok(QueryAnswer::Denom(query_denom(store))),
        QueryMsg::EnergyTransferOffer { id } => match query_energy_transfer_offer(store, id) {
            Ok(a) => Ok(QueryAnswer::EnergyTransferOffer(a)),
            Err(e) => Err(e),
        },
        QueryMsg::AllEnergyTransferOffers {} => Ok(
            QueryAnswer::AllEnergyTransferOffers(query_all_energy_transfer_offers(store)),
        ),
        QueryMsg::EnergyTransfer { id } => match query_energy_transfer(store, id) {
            Ok(a) => Ok(QueryAnswer::EnergyTransfer(a)),
            Err(e) => Err(e),
        },
        QueryMsg::AllEnergyTransfers {} => Ok(
            QueryAnswer::AllEnergyTransfers(query_all_energy_transfers(store)),
        ),
        QueryMsg::EnergyTransferOffers { owner } => Ok(
            QueryAnswer::EnergyTransferOffers(query_energy_transfer_offers(store, owner)),
        ),
        QueryMsg::OwnEnergyTransfers { driver, transfer_status } => Ok(
            QueryAnswer::OwnEnergyTransfers(query_own_energy_transfers(store, driver, transfer_status)),
        ),
        QueryMsg::EnergyTransfers { owner } => Ok(
            QueryAnswer::EnergyTransfers(query_energy_transfers(store, owner)),
        ),
    }
}

} // verus!
