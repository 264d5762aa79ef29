use vstd::prelude::*;

use cosmwasm_std::{StdError, Timestamp};

use crate::error::ContractError;
use crate::msg::{
    ChargerStatus, Coin, EnergyTransfer, EnergyTransferOffer, Location, Payout, PlugType,
    TransferStatus,
};
use crate::settlement::{driver_refund, owner_payout, settle};

verus! {

/// The record that a lookup handed in, if any.
pub open spec fn loaded<T>(r: Option<&T>) -> Option<T> {
    match r {
        Some(x) => Some(*x),
        None => None,
    }
}

/// The collateral of a transfer is the snapshot tariff times the reserved quantity.
pub open spec fn transfer_wf(t: EnergyTransfer) -> bool {
    t.collateral == t.offered_tariff * t.energy_to_transfer
}

/// The attached funds are exactly one coin of `amount` in the configured denomination.
pub open spec fn funds_match(funds: Seq<Coin>, denom: Seq<char>, amount: int) -> bool {
    funds.len() == 1 && funds[0].denom@ == denom && funds[0].amount == amount
}

/// `o` with its charger status replaced.
pub open spec fn with_charger_status(o: EnergyTransferOffer, s: ChargerStatus) -> EnergyTransferOffer {
    EnergyTransferOffer {
        id: o.id,
        owner: o.owner,
        charger_id: o.charger_id,
        charger_status: s,
        location: o.location,
        tariff: o.tariff,
        name: o.name,
        plug_type: o.plug_type,
    }
}

/// `t` with its status replaced.
pub open spec fn with_transfer_status(t: EnergyTransfer, s: TransferStatus) -> EnergyTransfer {
    EnergyTransfer {
        id: t.id,
        energy_transfer_offer_id: t.energy_transfer_offer_id,
        charger_id: t.charger_id,
        owner: t.owner,
        driver: t.driver,
        offered_tariff: t.offered_tariff,
        status: s,
        collateral: t.collateral,
        energy_to_transfer: t.energy_to_transfer,
        energy_transferred: t.energy_transferred,
        paid_date: t.paid_date,
    }
}

/// A payout list holding one instruction, or none when the amount is zero.
pub open spec fn payout_leg(recipient: String, amount: int) -> Seq<Payout> {
    if amount == 0 {
        seq![]
    } else {
        seq![Payout { recipient, amount: amount as u64 }]
    }
}

// ---------------------------------------------------------------- publish

pub open spec fn published_offer(
    id: u64,
    owner: String,
    charger_id: String,
    location: Location,
    tariff: u64,
    name: String,
    plug_type: PlugType,
) -> EnergyTransferOffer {
    EnergyTransferOffer {
        id,
        owner,
        charger_id,
        charger_status: ChargerStatus::Active,
        location,
        tariff,
        name,
        plug_type,
    }
}

/// Builds the record of a new offer. `offer_count` is the last offer id handed
/// out; the new offer takes the next one, which is also the new count.
pub fn publish_energy_transfer_offer(
    offer_count: u64,
    owner: String,
    charger_id: String,
    location: Location,
    tariff: u64,
    name: String,
    plug_type: PlugType,
) -> (r: Result<EnergyTransferOffer, ContractError>)
    ensures
        r is Ok <==> (charger_id@.len() > 0 && name@.len() > 0 && offer_count < u64::MAX),
        (charger_id@.len() == 0 || name@.len() == 0) ==> (r matches Err(
            ContractError::CustomError { val },
        ) && val@ == "charger_id and name must not be empty"@),
        (charger_id@.len() > 0 && name@.len() > 0 && offer_count == u64::MAX) ==> r == Err::<
            EnergyTransferOffer,
            ContractError,
        >(ContractError::Overflow),
        r is Ok ==> r->Ok_0 == published_offer(
            (offer_count + 1) as u64,
            owner,
            charger_id,
            location,
            tariff,
            name,
            plug_type,
        ),
{
    if charger_id.as_str().is_empty() || name.as_str().is_empty() {
        return Err(ContractError::CustomError { val: "charger_id and name must not be empty".to_owned() });
    }
    if offer_count == u64::MAX {
        return Err(ContractError::Overflow);
    }
    let id: u64 = offer_count + 1;
    Ok(EnergyTransferOffer {
        id,
        owner,
        charger_id,
        charger_status: ChargerStatus::Active,
        location,
        tariff,
        name,
        plug_type,
    })
}

// ----------------------------------------------------------- remove offer

/// The first check that removing offer `id` on behalf of `sender` fails, if any.
pub open spec fn remove_offer_refusal(
    sender: String,
    id: u64,
    offer: Option<EnergyTransferOffer>,
) -> Option<ContractError> {
    match offer {
        None => Some(ContractError::EnergyOfferNotFound(id)),
        Some(o) => if o.owner@ != sender@ {
            Some(ContractError::InvalidSigner(sender))
        } else if o.charger_status != ChargerStatus::Active && o.charger_status
            != ChargerStatus::Inactive {
            Some(
                ContractError::InvalidChargerMultipleStatuses(
                    ChargerStatus::Active,
                    ChargerStatus::Inactive,
                    o.charger_status,
                ),
            )
        } else {
            None
        },
    }
}

/// Decides whether `sender` may delete offer `energy_offer_id`, loaded as `offer`.
/// On `Ok` the record is to be deleted.
pub fn remove_energy_offer(
    sender: String,
    energy_offer_id: u64,
    offer: Option<&EnergyTransferOffer>,
) -> (r: Result<(), ContractError>)
    ensures
        match remove_offer_refusal(sender, energy_offer_id, loaded(offer)) {
            Some(e) => r == Err::<(), ContractError>(e),
            None => r is Ok,
        },
{
    match offer {
        None => Err(ContractError::EnergyOfferNotFound(energy_offer_id)),
        Some(o) => {
            if o.owner != sender {
                return Err(ContractError::InvalidSigner(sender));
            }
            if o.charger_status != ChargerStatus::Active && o.charger_status
                != ChargerStatus::Inactive {
                return Err(
                    ContractError::InvalidChargerMultipleStatuses(
                        ChargerStatus::Active,
                        ChargerStatus::Inactive,
                        o.charger_status,
                    ),
                );
            }
            Ok(())
        },
    }
}

// --------------------------------------------------------- start transfer

/// The first check that a reservation of `energy_to_transfer` units of `offer`
/// by `driver` fails, if any. `driver_check` is what the account validator
/// said of `driver`; `funds` came with the request.
pub open spec fn start_refusal(
    driver: String,
    driver_check: Result<(), StdError>,
    energy_transfer_offer_id: u64,
    energy_to_transfer: u64,
    offer: Option<EnergyTransferOffer>,
    transfer_count: u64,
    funds: Vec<Coin>,
    denom: String,
) -> Option<ContractError> {
    if driver@.len() == 0 {
        Some(ContractError::InvalidDriver)
    } else if driver_check is Err {
        Some(ContractError::Std(driver_check->Err_0))
    } else if energy_to_transfer == 0 {
        Some(ContractError::ZeroEnergy)
    } else {
        match offer {
            None => Some(ContractError::EnergyOfferNotFound(energy_transfer_offer_id)),
            Some(o) => if o.charger_status != ChargerStatus::Active {
                Some(ContractError::InvalidChargerStatus(ChargerStatus::Active, o.charger_status))
            } else if transfer_count == u64::MAX || o.tariff * energy_to_transfer > u64::MAX {
                Some(ContractError::Overflow)
            } else if !funds_match(funds@, denom@, o.tariff * energy_to_transfer) {
                Some(
                    ContractError::InvalidFunds(
                        Coin { denom, amount: (o.tariff * energy_to_transfer) as u128 },
                        funds,
                    ),
                )
            } else {
                None
            },
        }
    }
}

/// The transfer record that a successful reservation creates.
pub open spec fn requested_transfer(
    id: u64,
    energy_transfer_offer_id: u64,
    o: EnergyTransferOffer,
    driver: String,
    energy_to_transfer: u64,
    now: Timestamp,
) -> EnergyTransfer {
    EnergyTransfer {
        id,
        energy_transfer_offer_id,
        charger_id: o.charger_id,
        owner: o.owner,
        driver,
        offered_tariff: o.tariff,
        status: TransferStatus::Requested,
        collateral: (o.tariff * energy_to_transfer) as u64,
        energy_to_transfer,
        energy_transferred: 0,
        paid_date: now,
    }
}

/// Reserves offer `energy_transfer_offer_id`, loaded as `offer`, for `driver`.
/// `transfer_count` is the last transfer id handed out. On `Ok` it returns the
/// offer, now busy, and the new transfer, whose id is the new count.
pub fn start_energy_transfer(
    driver: String,
    driver_check: Result<(), StdError>,
    energy_transfer_offer_id: u64,
    energy_to_transfer: u64,
    offer: Option<&EnergyTransferOffer>,
    transfer_count: u64,
    funds: Vec<Coin>,
    denom: &String,
    now: Timestamp,
) -> (r: Result<(EnergyTransferOffer, EnergyTransfer), ContractError>)
    ensures
        match start_refusal(
            driver,
            driver_check,
            energy_transfer_offer_id,
            energy_to_transfer,
            loaded(offer),
            transfer_count,
            funds,
            *denom,
        ) {
            Some(e) => r == Err::<(EnergyTransferOffer, EnergyTransfer), ContractError>(e),
            None => r == Ok::<(EnergyTransferOffer, EnergyTransfer), ContractError>(
                (
                    with_charger_status(*offer.unwrap(), ChargerStatus::Busy),
                    requested_transfer(
                        (transfer_count + 1) as u64,
                        energy_transfer_offer_id,
                        *offer.unwrap(),
                        driver,
                        energy_to_transfer,
                        now,
                    ),
                ),
            ),
        },
        r matches Ok((o, t)) ==> o.charger_status == ChargerStatus::Busy && t.collateral
            == t.offered_tariff * t.energy_to_transfer && transfer_wf(t),
{
    if driver.as_str().is_empty() {
        return Err(ContractError::InvalidDriver);
    }
    match driver_check {
        Err(e) => {
            return Err(ContractError::Std(e));
        },
        Ok(()) => {},
    }
    if energy_to_transfer == 0 {
        return Err(ContractError::ZeroEnergy);
    }
    let o = match offer {
        None => {
            return Err(ContractError::EnergyOfferNotFound(energy_transfer_offer_id));
        },
        Some(o) => o,
    };
    if o.charger_status != ChargerStatus::Active {
        return Err(ContractError::InvalidChargerStatus(ChargerStatus::Active, o.charger_status));
    }
    if transfer_count == u64::MAX {
        return Err(ContractError::Overflow);
    }
    let collateral: u64 = match o.tariff.checked_mul(energy_to_transfer) {
        None => {
            return Err(ContractError::Overflow);
        },
        Some(c) => c,
    };
    let paid = funds.len() == 1 && funds[0].denom == *denom && funds[0].amount == collateral as u128;
    if !paid {
        return Err(
            ContractError::InvalidFunds(Coin { denom: denom.clone(), amount: collateral as u128 }, funds),
        );
    }
    let busy = EnergyTransferOffer {
        id: o.id,
        owner: o.owner.clone(),
        charger_id: o.charger_id.clone(),
        charger_status: ChargerStatus::Busy,
        location: o.location,
        tariff: o.tariff,
        name: o.name.clone(),
        plug_type: o.plug_type,
    };
    let transfer = EnergyTransfer {
        id: transfer_count + 1,
        energy_transfer_offer_id,
        charger_id: o.charger_id.clone(),
        owner: o.owner.clone(),
        driver,
        offered_tariff: o.tariff,
        status: TransferStatus::Requested,
        collateral,
        energy_to_transfer,
        energy_transferred: 0,
        paid_date: now,
    };
    Ok((busy, transfer))
}

// ------------------------------------------------------- transfer started

pub open spec fn started_refusal(id: u64, transfer: Option<EnergyTransfer>) -> Option<ContractError> {
    match transfer {
        None => Some(ContractError::EnergyTransferNotFound(id)),
        Some(t) => if t.status != TransferStatus::Requested {
            Some(ContractError::InvalidEnergyTransferStatus(TransferStatus::Requested, t.status))
        } else {
            None
        },
    }
}

/// Records that the charging session of transfer `energy_transfer_id`,
/// loaded as `transfer`, has begun.
pub fn energy_transfer_started(energy_transfer_id: u64, transfer: Option<&EnergyTransfer>) -> (r:
    Result<EnergyTransfer, ContractError>)
    ensures
        match started_refusal(energy_transfer_id, loaded(transfer)) {
            Some(e) => r == Err::<EnergyTransfer, ContractError>(e),
            None => r == Ok::<EnergyTransfer, ContractError>(
                with_transfer_status(*transfer.unwrap(), TransferStatus::Ongoing),
            ),
        },
{
    let t = match transfer {
        None => {
            return Err(ContractError::EnergyTransferNotFound(energy_transfer_id));
        },
        Some(t) => t,
    };
    if t.status != TransferStatus::Requested {
        return Err(ContractError::InvalidEnergyTransferStatus(TransferStatus::Requested, t.status));
    }
    let mut next = t.duplicate();
    next.status = TransferStatus::Ongoing;
    Ok(next)
}

// -------------------------------------------------------- cancel transfer

pub open spec fn cancel_refusal(
    id: u64,
    transfer: Option<EnergyTransfer>,
    offer: Option<EnergyTransferOffer>,
) -> Option<ContractError> {
    match transfer {
        None => Some(ContractError::EnergyTransferNotFound(id)),
        Some(t) => if t.status != TransferStatus::Requested {
            Some(ContractError::InvalidEnergyTransferStatus(TransferStatus::Requested, t.status))
        } else if offer is None {
            Some(ContractError::EnergyOfferNotFound(t.energy_transfer_offer_id))
        } else {
            None
        },
    }
}

/// Cancels transfer `energy_transfer_id`, loaded as `transfer`, whose offer was
/// loaded as `offer`. On `Ok` it returns the cancelled transfer, the offer made
/// active again, and the refund of the whole collateral to the driver.
pub fn cancel_energy_transfer(
    energy_transfer_id: u64,
    transfer: Option<&EnergyTransfer>,
    offer: Option<&EnergyTransferOffer>,
) -> (r: Result<(EnergyTransfer, EnergyTransferOffer, Vec<Payout>), ContractError>)
    ensures
        match cancel_refusal(energy_transfer_id, loaded(transfer), loaded(offer)) {
            Some(e) => r == Err::<(EnergyTransfer, EnergyTransferOffer, Vec<Payout>), ContractError>(e),
            None => r matches Ok((t, o, p)) && t == with_transfer_status(
                *transfer.unwrap(),
                TransferStatus::Cancelled,
            ) && o == with_charger_status(*offer.unwrap(), ChargerStatus::Active) && p@
                == payout_leg(transfer.unwrap().driver, transfer.unwrap().collateral as int),
        },
{
    let t = match transfer {
        None => {
            return Err(ContractError::EnergyTransferNotFound(energy_transfer_id));
        },
        Some(t) => t,
    };
    if t.status != TransferStatus::Requested {
        return Err(ContractError::InvalidEnergyTransferStatus(TransferStatus::Requested, t.status));
    }
    let o = match offer {
        None => {
            return Err(ContractError::EnergyOfferNotFound(t.energy_transfer_offer_id));
        },
        Some(o) => o,
    };
    let mut cancelled = t.duplicate();
    cancelled.status = TransferStatus::Cancelled;
    let mut active = o.duplicate();
    active.charger_status = ChargerStatus::Active;
    let mut payouts: Vec<Payout> = Vec::new();
    if t.collateral != 0 {
        payouts.push(Payout { recipient: t.driver.clone(), amount: t.collateral });
    }
    Ok((cancelled, active, payouts))
}

// ------------------------------------------------------ complete transfer

pub open spec fn completed_refusal(
    id: u64,
    transfer: Option<EnergyTransfer>,
    offer: Option<EnergyTransferOffer>,
) -> Option<ContractError> {
    match transfer {
        None => Some(ContractError::EnergyTransferNotFound(id)),
        Some(t) => if t.status != TransferStatus::Requested && t.status != TransferStatus::Ongoing {
            Some(
                ContractError::InvalidEnergyTransferMultipleStatuses(
                    TransferStatus::Requested,
                    TransferStatus::Ongoing,
                    t.status,
                ),
            )
        } else if offer is None {
            Some(ContractError::EnergyOfferNotFound(t.energy_transfer_offer_id))
        } else {
            None
        },
    }
}

/// The settled record: paid, with the reported usage and the settlement time.
pub open spec fn paid_transfer(t: EnergyTransfer, used_service_units: u64, now: Timestamp) -> EnergyTransfer {
    EnergyTransfer {
        id: t.id,
        energy_transfer_offer_id: t.energy_transfer_offer_id,
        charger_id: t.charger_id,
        owner: t.owner,
        driver: t.driver,
        offered_tariff: t.offered_tariff,
        status: TransferStatus::Paid,
        collateral: t.collateral,
        energy_to_transfer: t.energy_to_transfer,
        energy_transferred: used_service_units,
        paid_date: now,
    }
}

/// The instructions that settle `t` after `used` units: the driver's refund
/// first, then the owner's payout, each left out when it is zero.
pub open spec fn settlement_payouts(t: EnergyTransfer, used: u64) -> Seq<Payout> {
    payout_leg(
        t.driver,
        driver_refund(
            t.collateral as nat,
            t.offered_tariff as nat,
            t.energy_to_transfer as nat,
            used as nat,
        ),
    ) + payout_leg(
        t.owner,
        owner_payout(
            t.collateral as nat,
            t.offered_tariff as nat,
            t.energy_to_transfer as nat,
            used as nat,
        ) as int,
    )
}

/// Settles transfer `energy_transfer_id`, loaded as `transfer`, after
/// `used_service_units` units were delivered; its offer was loaded as `offer`.
/// On `Ok` it returns the paid transfer, the offer made active again, and the
/// payouts.
pub fn energy_transfer_completed(
    energy_transfer_id: u64,
    used_service_units: u64,
    transfer: Option<&EnergyTransfer>,
    offer: Option<&EnergyTransferOffer>,
    now: Timestamp,
) -> (r: Result<(EnergyTransfer, EnergyTransferOffer, Vec<Payout>), ContractError>)
    requires
        transfer matches Some(t) ==> transfer_wf(*t),
    ensures
        match completed_refusal(energy_transfer_id, loaded(transfer), loaded(offer)) {
            Some(e) => r == Err::<(EnergyTransfer, EnergyTransferOffer, Vec<Payout>), ContractError>(e),
            None => r matches Ok((t, o, p)) && t == paid_transfer(
                *transfer.unwrap(),
                used_service_units,
                now,
            ) && o == with_charger_status(*offer.unwrap(), ChargerStatus::Active) && p@
                == settlement_payouts(*transfer.unwrap(), used_service_units),
        },
{
    let t = match transfer {
        None => {
            return Err(ContractError::EnergyTransferNotFound(energy_transfer_id));
        },
        Some(t) => t,
    };
    if t.status != TransferStatus::Requested && t.status != TransferStatus::Ongoing {
        return Err(
            ContractError::InvalidEnergyTransferMultipleStatuses(
                TransferStatus::Requested,
                TransferStatus::Ongoing,
                t.status,
            ),
        );
    }
    let o = match offer {
        None => {
            return Err(ContractError::EnergyOfferNotFound(t.energy_transfer_offer_id));
        },
        Some(o) => o,
    };
    let (to_owner, to_driver) = settle(
        t.collateral,
        t.offered_tariff,
        t.energy_to_transfer,
        used_service_units,
    );
    let mut payouts: Vec<Payout> = Vec::new();
    if to_driver != 0 {
        payouts.push(Payout { recipient: t.driver.clone(), amount: to_driver });
    }
    if to_owner != 0 {
        payouts.push(Payout { recipient: t.owner.clone(), amount: to_owner });
    }
    proof {
        assert(payouts@ =~= settlement_payouts(*t, used_service_units));
    }
    let mut paid = t.duplicate();
    paid.status = TransferStatus::Paid;
    paid.energy_transferred = used_service_units;
    paid.paid_date = now;
    let mut active = o.duplicate();
    active.charger_status = ChargerStatus::Active;
    Ok((paid, active, payouts))
}

// -------------------------------------------------------- remove transfer

pub open spec fn remove_transfer_refusal(id: u64, transfer: Option<EnergyTransfer>) -> Option<
    ContractError,
> {
    match transfer {
        None => Some(ContractError::EnergyTransferNotFound(id)),
        Some(t) => if t.status != TransferStatus::Paid && t.status != TransferStatus::Cancelled {
            Some(
                ContractError::InvalidEnergyTransferMultipleStatuses(
                    TransferStatus::Paid,
                    TransferStatus::Cancelled,
                    t.status,
                ),
            )
        } else {
            None
        },
    }
}

/// Decides whether transfer `energy_transfer_id`, loaded as `transfer`, may be
/// deleted. On `Ok` the record is to be deleted.
pub fn remove_energy_transfer(energy_transfer_id: u64, transfer: Option<&EnergyTransfer>) -> (r:
    Result<(), ContractError>)
    ensures
        match remove_transfer_refusal(energy_transfer_id, loaded(transfer)) {
            Some(e) => r == Err::<(), ContractError>(e),
            None => r is Ok,
        },
{
    let t = match transfer {
        None => {
            return Err(ContractError::EnergyTransferNotFound(energy_transfer_id));
        },
        Some(t) => t,
    };
    if t.status != TransferStatus::Paid && t.status != TransferStatus::Cancelled {
        return Err(
            ContractError::InvalidEnergyTransferMultipleStatuses(
                TransferStatus::Paid,
                TransferStatus::Cancelled,
                t.status,
            ),
        );
    }
    Ok(())
}

} // verus!
