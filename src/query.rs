use vstd::prelude::*;

use crate::error::ContractError;
use crate::msg::{
    AllEnergyTransferOffersResponse, AllEnergyTransfersResponse, DenomResponse, EnergyTransfer,
    EnergyTransferOffer, EnergyTransferOfferResponse, EnergyTransferOffersByOwnerResponse,
    EnergyTransferResponse, EnergyTransfersByOwnerResponse, OwnEnergyTransfersResponse,
    TransferStatus,
};
use crate::store::{find_offer, find_transfer, Store};

verus! {

pub open spec fn offer_owned_by(owner: Seq<char>) -> spec_fn(EnergyTransferOffer) -> bool {
    |o: EnergyTransferOffer| o.owner@ == owner
}

pub open spec fn transfer_owned_by(owner: Seq<char>) -> spec_fn(EnergyTransfer) -> bool {
    |t: EnergyTransfer| t.owner@ == owner
}

pub open spec fn transfer_of_driver_in(driver: Seq<char>, status: TransferStatus) -> spec_fn(
    EnergyTransfer,
) -> bool {
    |t: EnergyTransfer| t.driver@ == driver && t.status == status
}

/// A copy of every offer, in the same order.
pub fn copy_offers(offers: &Vec<EnergyTransferOffer>) -> (r: Vec<EnergyTransferOffer>)
    ensures
        r@ == offers@,
{
    let mut r: Vec<EnergyTransferOffer> = Vec::new();
    let mut i: usize = 0;
    while i < offers.len()
        invariant
            i <= offers@.len(),
            r@ == offers@.subrange(0, i as int),
        decreases offers@.len() - i,
    {
        r.push(offers[i].duplicate());
        i += 1;
        assert(r@ =~= offers@.subrange(0, i as int));
    }
    assert(offers@.subrange(0, offers@.len() as int) =~= offers@);
    r
}

/// A copy of every transfer, in the same order.
pub fn copy_transfers(transfers: &Vec<EnergyTransfer>) -> (r: Vec<EnergyTransfer>)
    ensures
        r@ == transfers@,
{
    let mut r: Vec<EnergyTransfer> = Vec::new();
    let mut i: usize = 0;
    while i < transfers.len()
        invariant
            i <= transfers@.len(),
            r@ == transfers@.subrange(0, i as int),
        decreases transfers@.len() - i,
    {
        r.push(transfers[i].duplicate());
        i += 1;
        assert(r@ =~= transfers@.subrange(0, i as int));
    }
    assert(transfers@.subrange(0, transfers@.len() as int) =~= transfers@);
    r
}

/// The offers of `owner`, in the order given.
pub fn offers_of_owner(offers: &Vec<EnergyTransferOffer>, owner: &String) -> (r: Vec<
    EnergyTransferOffer,
>)
    ensures
        r@ == offers@.filter(offer_owned_by(owner@)),
{
    let ghost pred = offer_owned_by(owner@);
    let mut r: Vec<EnergyTransferOffer> = Vec::new();
    let mut i: usize = 0;
    while i < offers.len()
        invariant
            i <= offers@.len(),
            pred == offer_owned_by(owner@),
            r@ == offers@.subrange(0, i as int).filter(pred),
        decreases offers@.len() - i,
    {
        proof {
            offers@.subrange(0, i as int).lemma_filter_push(offers@[i as int], pred);
            assert(offers@.subrange(0, i as int).push(offers@[i as int]) =~= offers@.subrange(
                0,
                i + 1,
            ));
        }
        if offers[i].owner == *owner {
            r.push(offers[i].duplicate());
        }
        i += 1;
    }
    assert(offers@.subrange(0, offers@.len() as int) =~= offers@);
    r
}

/// The transfers whose offer belongs to `owner`, in the order given.
pub fn transfers_of_owner(transfers: &Vec<EnergyTransfer>, owner: &String) -> (r: Vec<
    EnergyTransfer,
>)
    ensures
        r@ == transfers@.filter(transfer_owned_by(owner@)),
{
    let ghost pred = transfer_owned_by(owner@);
    let mut r: Vec<EnergyTransfer> = Vec::new();
    let mut i: usize = 0;
    while i < transfers.len()
        invariant
            i <= transfers@.len(),
            pred == transfer_owned_by(owner@),
            r@ == transfers@.subrange(0, i as int).filter(pred),
        decreases transfers@.len() - i,
    {
        proof {
            transfers@.subrange(0, i as int).lemma_filter_push(transfers@[i as int], pred);
            assert(transfers@.subrange(0, i as int).push(transfers@[i as int]) =~= transfers@.subrange(
                0,
                i + 1,
            ));
        }
        if transfers[i].owner == *owner {
            r.push(transfers[i].duplicate());
        }
        i += 1;
    }
    assert(transfers@.subrange(0, transfers@.len() as int) =~= transfers@);
    r
}

/// The transfers of `driver` that are in `status`, in the order given.
pub fn transfers_of_driver(
    transfers: &Vec<EnergyTransfer>,
    driver: &String,
    status: TransferStatus,
) -> (r: Vec<EnergyTransfer>)
    ensures
        r@ == transfers@.filter(transfer_of_driver_in(driver@, status)),
{
    let ghost pred = transfer_of_driver_in(driver@, status);
    let mut r: Vec<EnergyTransfer> = Vec::new();
    let mut i: usize = 0;
    while i < transfers.len()
        invariant
            i <= transfers@.len(),
            pred == transfer_of_driver_in(driver@, status),
            r@ == transfers@.subrange(0, i as int).filter(pred),
        decreases transfers@.len() - i,
    {
        proof {
            transfers@.subrange(0, i as int).lemma_filter_push(transfers@[i as int], pred);
            assert(transfers@.subrange(0, i as int).push(transfers@[i as int]) =~= transfers@.subrange(
                0,
                i + 1,
            ));
        }
        if transfers[i].driver == *driver && transfers[i].status == status {
            r.push(transfers[i].duplicate());
        }
        i += 1;
    }
    assert(transfers@.subrange(0, transfers@.len() as int) =~= transfers@);
    r
}

pub fn query_denom(store: &Store) -> (r: DenomResponse)
    ensures
        r.denom == store@.denom,
{
    DenomResponse { denom: store.denom().clone() }
}

pub fn query_energy_transfer_offer(store: &Store, id: u64) -> (r: Result<
    EnergyTransferOfferResponse,
    ContractError,
>)
    requires
        store@.wf(),
    ensures
        match find_offer(store@.offers, id) {
            Some(o) => r == Ok::<EnergyTransferOfferResponse, ContractError>(
                EnergyTransferOfferResponse { energy_transfer_offer: o },
            ),
            None => r == Err::<EnergyTransferOfferResponse, ContractError>(
                ContractError::EnergyOfferNotFound(id),
            ),
        },
{
    match store.offer(id) {
        Some(o) => Ok(EnergyTransferOfferResponse { energy_transfer_offer: o.duplicate() }),
        None => Err(ContractError::EnergyOfferNotFound(id)),
    }
}

pub fn query_all_energy_transfer_offers(store: &Store) -> (r: AllEnergyTransferOffersResponse)
    ensures
        r.energy_transfer_offers@ == store@.offers,
{
    AllEnergyTransferOffersResponse { energy_transfer_offers: copy_offers(get_energy_transfer_offers(store)) }
}

pub fn query_energy_transfer(store: &Store, id: u64) -> (r: Result<EnergyTransferResponse, ContractError>)
    requires
        store@.wf(),
    ensures
        match find_transfer(store@.transfers, id) {
            Some(t) => r == Ok::<EnergyTransferResponse, ContractError>(
                EnergyTransferResponse { energy_transfer: t },
            ),
            None => r == Err::<EnergyTransferResponse, ContractError>(
                ContractError::EnergyTransferNotFound(id),
            ),
        },
{
    match store.transfer(id) {
        Some(t) => Ok(EnergyTransferResponse { energy_transfer: t.duplicate() }),
        None => Err(ContractError::EnergyTransferNotFound(id)),
    }
}

pub fn query_all_energy_transfers(store: &Store) -> (r: AllEnergyTransfersResponse)
    ensures
        r.energy_transfers@ == store@.transfers,
{
    AllEnergyTransfersResponse { energy_transfers: copy_transfers(get_energy_transfers(store)) }
}

pub fn query_energy_transfer_offers(store: &Store, owner: String) -> (r:
    EnergyTransferOffersByOwnerResponse)
    ensures
        r.energy_transfer_offers@ == store@.offers.filter(offer_owned_by(owner@)),
{
    EnergyTransferOffersByOwnerResponse {
        energy_transfer_offers: offers_of_owner(get_energy_transfer_offers(store), &owner),
    }
}

pub fn query_own_energy_transfers(store: &Store, driver: String, transfer_status: TransferStatus) -> (r:
    OwnEnergyTransfersResponse)
    ensures
        r.energy_transfers@ == store@.transfers.filter(transfer_of_driver_in(driver@, transfer_status)),
{
    OwnEnergyTransfersResponse {
        energy_transfers: transfers_of_driver(get_energy_transfers(store), &driver, transfer_status),
    }
}

pub fn query_energy_transfers(store: &Store, owner: String) -> (r: EnergyTransfersByOwnerResponse)
    ensures
        r.energy_transfers@ == store@.transfers.filter(transfer_owned_by(owner@)),
{
    EnergyTransfersByOwnerResponse {
        energy_transfers: transfers_of_owner(get_energy_transfers(store), &owner),
    }
}

/// Every transfer, in ascending id order.
pub fn get_energy_transfers(store: &Store) -> (r: &Vec<EnergyTransfer>)
    ensures
        r@ == store@.transfers,
{
    store.transfers()
}

/// Every offer, in ascending id order.
pub fn get_energy_transfer_offers(store: &Store) -> (r: &Vec<EnergyTransferOffer>)
    ensures
        r@ == store@.offers,
{
    store.offers()
}

} // verus!
