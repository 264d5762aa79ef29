use vstd::prelude::*;

use cosmwasm_std::StdError;

use crate::msg::{ChargerStatus, Coin, TransferStatus};

verus! {

/// cosmwasm_std::StdError, the account validator's refusal; carried, never read.
#[verifier::external_type_specification]
#[verifier::external_body]
pub struct ExStdError(StdError);

/// Why an operation was refused. Every refusal leaves the records untouched.
#[derive(Debug, PartialEq)]
pub enum ContractError {
    /// The account validator rejected an address.
    Std(StdError),
    Unauthorized {},
    CustomError { val: String },
    /// The caller is not the owner of the record it tried to change.
    InvalidSigner(String),
    /// Expected status, then the status found.
    InvalidChargerStatus(ChargerStatus, ChargerStatus),
    /// Two accepted statuses, then the status found.
    InvalidChargerMultipleStatuses(ChargerStatus, ChargerStatus, ChargerStatus),
    EnergyOfferNotFound(u64),
    InvalidDriver,
    ZeroTariff,
    ZeroEnergy,
    EnergyTransferNotFound(u64),
    /// Expected status, then the status found.
    InvalidEnergyTransferStatus(TransferStatus, TransferStatus),
    /// Two accepted statuses, then the status found.
    InvalidEnergyTransferMultipleStatuses(TransferStatus, TransferStatus, TransferStatus),
    /// The collateral that was owed, then the funds that came with the request.
    InvalidFunds(Coin, Vec<Coin>),
    SemVer(String),
    /// A counter or an amount would leave the range of `u64`.
    Overflow,
}

} // verus!
