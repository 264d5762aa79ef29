use vstd::prelude::*;

use cosmwasm_std::{Decimal, Timestamp};

verus! {

/// cosmwasm_std::Decimal, the coordinate type of a location; carried, never read.
#[verifier::external_type_specification]
#[verifier::external_body]
pub struct ExDecimal(Decimal);

/// cosmwasm_std::Timestamp, the block time stamped on a transfer; carried, never read.
#[verifier::external_type_specification]
#[verifier::external_body]
pub struct ExTimestamp(Timestamp);

/// Where a charger stands. The coordinates are carried as given and never read.
#[derive(Clone, Copy, Debug, PartialEq)]
pub struct Location {
    pub latitude: Decimal,
    pub longitude: Decimal,
}

/// A coordinate pair in the textual form used by records of an earlier layout.
#[derive(Clone, Debug, PartialEq)]
pub struct OldLocation {
    pub latitude: String,
    pub longitude: String,
}

#[derive(Clone, Copy, Debug, PartialEq, Eq, Structural)]
pub enum ChargerStatus {
    Active,
    Busy,
    Inactive,
    Unspecified,
}

#[derive(Clone, Copy, Debug, PartialEq, Eq, Structural)]
pub enum PlugType {
    Type1,
    Type2,
    CHAdeMO,
    CCS,
    Unspecified,
}

#[derive(Clone, Copy, Debug, PartialEq, Eq, Structural)]
pub enum TransferStatus {
    Requested,
    Ongoing,
    Paid,
    Cancelled,
    Unspecified,
}

pub open spec fn charger_status_text(s: ChargerStatus) -> Seq<char> {
    match s {
        ChargerStatus::Active => "Active"@,
        ChargerStatus::Busy => "Busy"@,
        ChargerStatus::Inactive => "Inactive"@,
        ChargerStatus::Unspecified => "Unspecified"@,
    }
}

pub open spec fn transfer_status_text(s: TransferStatus) -> Seq<char> {
    match s {
        TransferStatus::Requested => "Requested"@,
        TransferStatus::Ongoing => "Ongoing"@,
        TransferStatus::Paid => "Paid"@,
        TransferStatus::Cancelled => "Cancelled"@,
        TransferStatus::Unspecified => "Unspecified"@,
    }
}

impl ChargerStatus {
    /// The stable name of the status, used in diagnostics only.
    pub fn as_text(&self) -> (r: &'static str)
        ensures
            r@ == charger_status_text(*self),
    {
        match self {
            ChargerStatus::Active => "Active",
            ChargerStatus::Busy => "Busy",
            ChargerStatus::Inactive => "Inactive",
            ChargerStatus::Unspecified => "Unspecified",
        }
    }
}

impl TransferStatus {
    /// The stable name of the status, used in diagnostics only.
    pub fn as_text(&self) -> (r: &'static str)
        ensures
            r@ == transfer_status_text(*self),
    {
        match self {
            TransferStatus::Requested => "Requested",
            TransferStatus::Ongoing => "Ongoing",
            TransferStatus::Paid => "Paid",
            TransferStatus::Cancelled => "Cancelled",
            TransferStatus::Unspecified => "Unspecified",
        }
    }
}

/// A published, reservable charging slot.
#[derive(Clone, Debug, PartialEq)]
pub struct EnergyTransferOffer {
    pub id: u64,
    pub owner: String,
    pub charger_id: String,
    pub charger_status: ChargerStatus,
    pub location: Location,
    pub tariff: u64,
    pub name: String,
    pub plug_type: PlugType,
}

impl EnergyTransferOffer {
    /// A field-by-field copy of the record.
    pub fn duplicate(&self) -> (r: Self)
        ensures
            r == *self,
    {
        EnergyTransferOffer {
            id: self.id,
            owner: self.owner.clone(),
            charger_id: self.charger_id.clone(),
            charger_status: self.charger_status,
            location: self.location,
            tariff: self.tariff,
            name: self.name.clone(),
            plug_type: self.plug_type,
        }
    }
}

/// An offer record in the layout used before coordinates became decimals.
#[derive(Clone, Debug, PartialEq)]
pub struct OldEnergyTransferOffer {
    pub id: u64,
    pub owner: String,
    pub charger_id: String,
    pub charger_status: ChargerStatus,
    pub location: OldLocation,
    pub tariff: u64,
    pub name: String,
    pub plug_type: PlugType,
}

/// One reservation of an offer, from request to settlement or cancellation.
#[derive(Debug, PartialEq)]
pub struct EnergyTransfer {
    pub id: u64,
    pub energy_transfer_offer_id: u64,
    pub charger_id: String,
    pub owner: String,
    pub driver: String,
    pub offered_tariff: u64,
    pub status: TransferStatus,
    pub collateral: u64,
    pub energy_to_transfer: u64,
    pub energy_transferred: u64,
    pub paid_date: Timestamp,
}

impl EnergyTransfer {
    /// A field-by-field copy of the record.
    pub fn duplicate(&self) -> (r: Self)
        ensures
            r == *self,
    {
        EnergyTransfer {
            id: self.id,
            energy_transfer_offer_id: self.energy_transfer_offer_id,
            charger_id: self.charger_id.clone(),
            owner: self.owner.clone(),
            driver: self.driver.clone(),
            offered_tariff: self.offered_tariff,
            status: self.status,
            collateral: self.collateral,
            energy_to_transfer: self.energy_to_transfer,
            energy_transferred: self.energy_transferred,
            paid_date: self.paid_date,
        }
    }
}

/// An amount of one denomination, as attached to a request.
#[derive(Clone, Debug, PartialEq)]
pub struct Coin {
    pub denom: String,
    pub amount: u128,
}

/// An instruction to send `amount` units of the configured denomination.
#[derive(Clone, Debug, PartialEq)]
pub struct Payout {
    pub recipient: String,
    pub amount: u64,
}

/// Answers of the read operations.
#[derive(Debug, PartialEq)]
pub struct DenomResponse {
    pub denom: String,
}

#[derive(Debug, PartialEq)]
pub struct EnergyTransferOfferResponse {
    pub energy_transfer_offer: EnergyTransferOffer,
}

#[derive(Debug, PartialEq)]
pub struct AllEnergyTransferOffersResponse {
    pub energy_transfer_offers: Vec<EnergyTransferOffer>,
}

#[derive(Debug, PartialEq)]
pub struct EnergyTransferResponse {
    pub energy_transfer: EnergyTransfer,
}

#[derive(Debug, PartialEq)]
pub struct AllEnergyTransfersResponse {
    pub energy_transfers: Vec<EnergyTransfer>,
}

#[derive(Debug, PartialEq)]
pub struct EnergyTransferOffersByOwnerResponse {
    pub energy_transfer_offers: Vec<EnergyTransferOffer>,
}

#[derive(Debug, PartialEq)]
pub struct OwnEnergyTransfersResponse {
    pub energy_transfers: Vec<EnergyTransfer>,
}

#[derive(Debug, PartialEq)]
pub struct EnergyTransfersByOwnerResponse {
    pub energy_transfers: Vec<EnergyTransfer>,
}

} // verus!

verus! {

pub struct InstantiateMsg {
    pub denom: String,
}

/// The seven mutating operations.
pub enum ExecuteMsg {
    PublishEnergyTransferOffer {
        charger_id: String,
        location: Location,
        tariff: u64,
        name: String,
        plug_type: PlugType,
    },
    RemoveEnergyOffer { energy_offer_id: u64 },
    StartEnergyTransfer { driver: String, energy_transfer_offer_id: u64, energy_to_transfer: u64 },
    EnergyTransferStarted { energy_transfer_id: u64 },
    EnergyTransferCompleted { energy_transfer_id: u64, used_service_units: u64 },
    CancelEnergyTransfer { energy_transfer_id: u64 },
    RemoveEnergyTransfer { energy_transfer_id: u64 },
}

pub struct MigrateMsg {}

/// The eight read operations.
pub enum QueryMsg {
    Denom {},
    EnergyTransferOffer { id: u64 },
    AllEnergyTransferOffers {},
    EnergyTransfer { id: u64 },
    AllEnergyTransfers {},
    EnergyTransferOffers { owner: String },
    OwnEnergyTransfers { driver: String, transfer_status: TransferStatus },
    EnergyTransfers { owner: String },
}

/// The answer to a read operation, one variant for each of them.
#[derive(Debug, PartialEq)]
pub enum QueryAnswer {
    Denom(DenomResponse),
    EnergyTransferOffer(EnergyTransferOfferResponse),
    AllEnergyTransferOffers(AllEnergyTransferOffersResponse),
    EnergyTransfer(EnergyTransferResponse),
    AllEnergyTransfers(AllEnergyTransfersResponse),
    EnergyTransferOffers(EnergyTransferOffersByOwnerResponse),
    OwnEnergyTransfers(OwnEnergyTransfersResponse),
    EnergyTransfers(EnergyTransfersByOwnerResponse),
}

/// Who sent a request, and the funds attached to it.
pub struct MessageInfo {
    pub sender: String,
    pub funds: Vec<Coin>,
}

} // verus!
