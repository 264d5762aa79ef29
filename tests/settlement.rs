use std::str::FromStr;

use cosmwasm_std::{Decimal, StdError, Timestamp};
use ev::error::ContractError;
use ev::execute::{
    cancel_energy_transfer, energy_transfer_completed, energy_transfer_started,
    publish_energy_transfer_offer, remove_energy_offer, remove_energy_transfer,
    start_energy_transfer,
};
use ev::msg::{ChargerStatus, Coin, EnergyTransferOffer, Location, Payout, PlugType, TransferStatus};
use ev::query::{offers_of_owner, transfers_of_driver, transfers_of_owner};
use ev::settlement::settle;
use ev::store::Store;

const DENOM: &str = "uc4e";

fn location() -> Location {
    Location { latitude: Decimal::from_str("52.5").unwrap(), longitude: Decimal::from_str("13.4").unwrap() }
}

fn coins(amount: u128) -> Vec<Coin> {
    vec![Coin { denom: DENOM.to_string(), amount }]
}

fn now() -> Timestamp {
    Timestamp::from_seconds(1_700_000_000)
}

/// A store with one offer of "owner" at `tariff` and, when `qty > 0`, one
/// transfer of "driver" for `qty` units.
fn store_with(tariff: u64, qty: u64) -> Store {
    let mut s = Store::new(DENOM.to_string());
    s.publish_offer("owner".to_string(), "ch".to_string(), location(), tariff, "o".to_string(), PlugType::CCS)
        .unwrap();
    if qty > 0 {
        let funds = coins(tariff as u128 * qty as u128);
        s.start_transfer("driver".to_string(), Ok(()), 1, qty, funds, now()).unwrap();
    }
    s
}

fn payout(recipient: &str, amount: u64) -> Payout {
    Payout { recipient: recipient.to_string(), amount }
}

#[test]
fn settle_splits_exactly() {
    assert_eq!(settle(500, 50, 10, 10), (500, 0));
    assert_eq!(settle(500, 50, 10, 5), (250, 250));
    assert_eq!(settle(500, 50, 10, 0), (0, 500));
    assert_eq!(settle(500, 50, 10, 1000), (500, 0));
    assert_eq!(settle(21, 7, 3, 2), (14, 7));
}

#[test]
fn start_locks_offer_and_snapshots_collateral() {
    let s = store_with(50, 10);
    assert_eq!(s.offer(1).unwrap().charger_status, ChargerStatus::Busy);
    let t = s.transfer(1).unwrap();
    assert_eq!(t.collateral, 500);
    assert_eq!(t.offered_tariff, 50);
    assert_eq!(t.owner, "owner");
    assert_eq!(t.driver, "driver");
    assert_eq!(t.energy_transferred, 0);
    assert_eq!(s.transfer_count(), 1);
}

#[test]
fn start_refuses_wrong_funds() {
    let mut s = store_with(50, 0);
    for funds in [coins(499), coins(501), vec![], vec![Coin { denom: "atom".to_string(), amount: 500 }]] {
        let err = s.start_transfer("driver".to_string(), Ok(()), 1, 10, funds.clone(), now()).unwrap_err();
        assert_eq!(err, ContractError::InvalidFunds(Coin { denom: DENOM.to_string(), amount: 500 }, funds));
    }
    let two = vec![Coin { denom: DENOM.to_string(), amount: 250 }, Coin { denom: DENOM.to_string(), amount: 250 }];
    assert!(matches!(
        s.start_transfer("driver".to_string(), Ok(()), 1, 10, two, now()),
        Err(ContractError::InvalidFunds(_, _))
    ));
    assert_eq!(s.offer(1).unwrap().charger_status, ChargerStatus::Active);
    assert_eq!(s.transfer_count(), 0);
}

#[test]
fn start_refusals_in_order() {
    let mut s = store_with(50, 0);
    assert_eq!(s.start_transfer(String::new(), Ok(()), 1, 10, coins(500), now()), Err(ContractError::InvalidDriver));
    assert_eq!(
        s.start_transfer("x".to_string(), Err(StdError::generic_err("invalid address")), 1, 10, coins(500), now()),
        Err(ContractError::Std(StdError::generic_err("invalid address")))
    );
    assert_eq!(s.start_transfer("driver".to_string(), Ok(()), 1, 0, coins(0), now()), Err(ContractError::ZeroEnergy));
    assert_eq!(
        s.start_transfer("driver".to_string(), Ok(()), 7, 10, coins(500), now()),
        Err(ContractError::EnergyOfferNotFound(7))
    );
    s.start_transfer("driver".to_string(), Ok(()), 1, 10, coins(500), now()).unwrap();
    assert_eq!(
        s.start_transfer("driver".to_string(), Ok(()), 1, 10, coins(500), now()),
        Err(ContractError::InvalidChargerStatus(ChargerStatus::Active, ChargerStatus::Busy))
    );
}

#[test]
fn start_refuses_collateral_overflow() {
    let mut s = store_with(u64::MAX, 0);
    assert_eq!(s.start_transfer("driver".to_string(), Ok(()), 1, 2, coins(0), now()), Err(ContractError::Overflow));
}

#[test]
fn complete_twice_is_refused() {
    let mut s = store_with(50, 10);
    assert_eq!(s.complete_transfer(1, 10, now()).unwrap(), vec![payout("owner", 500)]);
    assert_eq!(
        s.complete_transfer(1, 10, now()),
        Err(ContractError::InvalidEnergyTransferMultipleStatuses(
            TransferStatus::Requested,
            TransferStatus::Ongoing,
            TransferStatus::Paid
        ))
    );
}

#[test]
fn complete_example_a_full_usage() {
    let mut s = store_with(50, 10);
    assert_eq!(s.transfer(1).unwrap().collateral, 500);
    assert_eq!(s.complete_transfer(1, 10, now()).unwrap(), vec![payout("owner", 500)]);
    let t = s.transfer(1).unwrap();
    assert_eq!(t.status, TransferStatus::Paid);
    assert_eq!(t.energy_transferred, 10);
    assert_eq!(s.offer(1).unwrap().charger_status, ChargerStatus::Active);
}

#[test]
fn complete_example_b_half_usage() {
    let mut s = store_with(50, 10);
    s.mark_transfer_started(1).unwrap();
    assert_eq!(s.complete_transfer(1, 5, now()).unwrap(), vec![payout("driver", 250), payout("owner", 250)]);
}

#[test]
fn complete_example_c_no_usage() {
    let mut s = store_with(50, 10);
    assert_eq!(s.complete_transfer(1, 0, now()).unwrap(), vec![payout("driver", 500)]);
}

#[test]
fn complete_over_usage_is_clamped() {
    let mut s = store_with(50, 10);
    assert_eq!(s.complete_transfer(1, 1_000_000, now()).unwrap(), vec![payout("owner", 500)]);
    assert_eq!(s.transfer(1).unwrap().energy_transferred, 1_000_000);
}

#[test]
fn complete_with_zero_tariff_sends_nothing() {
    let mut s = store_with(0, 10);
    assert_eq!(s.complete_transfer(1, 3, now()).unwrap(), vec![]);
}

#[test]
fn cancel_example_d() {
    let mut s = store_with(50, 10);
    assert_eq!(s.cancel_transfer(1).unwrap(), vec![payout("driver", 500)]);
    assert_eq!(s.offer(1).unwrap().charger_status, ChargerStatus::Active);
    assert_eq!(s.transfer(1).unwrap().status, TransferStatus::Cancelled);
    assert_eq!(
        s.cancel_transfer(1),
        Err(ContractError::InvalidEnergyTransferStatus(TransferStatus::Requested, TransferStatus::Cancelled))
    );
}

#[test]
fn ongoing_transfer_cannot_be_cancelled() {
    let mut s = store_with(50, 10);
    s.mark_transfer_started(1).unwrap();
    assert_eq!(
        s.cancel_transfer(1),
        Err(ContractError::InvalidEnergyTransferStatus(TransferStatus::Requested, TransferStatus::Ongoing))
    );
    assert_eq!(s.cancel_transfer(9), Err(ContractError::EnergyTransferNotFound(9)));
}

#[test]
fn busy_offer_is_never_removed() {
    let mut s = store_with(50, 10);
    assert_eq!(
        s.remove_offer("owner".to_string(), 1),
        Err(ContractError::InvalidChargerMultipleStatuses(
            ChargerStatus::Active,
            ChargerStatus::Inactive,
            ChargerStatus::Busy
        ))
    );
    assert_eq!(s.remove_offer("someone".to_string(), 1), Err(ContractError::InvalidSigner("someone".to_string())));
    assert!(s.offer(1).is_some());
}

#[test]
fn remove_transfer_only_when_settled() {
    let mut s = store_with(50, 10);
    let requested = s.remove_transfer(1);
    assert_eq!(
        requested,
        Err(ContractError::InvalidEnergyTransferMultipleStatuses(
            TransferStatus::Paid,
            TransferStatus::Cancelled,
            TransferStatus::Requested
        ))
    );
    s.mark_transfer_started(1).unwrap();
    assert!(s.remove_transfer(1).is_err());
    s.complete_transfer(1, 2, now()).unwrap();
    assert_eq!(s.remove_transfer(1), Ok(()));
    assert!(s.transfer(1).is_none());
    assert_eq!(s.remove_transfer(1), Err(ContractError::EnergyTransferNotFound(1)));

    let mut c = store_with(50, 10);
    c.cancel_transfer(1).unwrap();
    assert_eq!(c.remove_transfer(1), Ok(()));
}

#[test]
fn publish_assigns_increasing_ids() {
    let mut s = Store::new(DENOM.to_string());
    for expected in 1..=3u64 {
        let id = s.publish_offer("owner".to_string(), "ch".to_string(), location(), 0, "n".to_string(), PlugType::Type2);
        assert_eq!(id, Ok(expected));
    }
    assert!(s.publish_offer("owner".to_string(), String::new(), location(), 1, "n".to_string(), PlugType::Type2).is_err());
    assert_eq!(s.offer_count(), 3);
    s.remove_offer("owner".to_string(), 2).unwrap();
    let ids: Vec<u64> = s.offers().iter().map(|o| o.id).collect();
    assert_eq!(ids, vec![1, 3]);
    assert_eq!(s.publish_offer("owner".to_string(), "ch".to_string(), location(), 0, "n".to_string(), PlugType::Type2), Ok(4));
}

#[test]
fn handlers_report_missing_records() {
    assert_eq!(energy_transfer_started(3, None), Err(ContractError::EnergyTransferNotFound(3)));
    assert_eq!(remove_energy_transfer(4, None), Err(ContractError::EnergyTransferNotFound(4)));
    assert_eq!(remove_energy_offer("a".to_string(), 5, None), Err(ContractError::EnergyOfferNotFound(5)));
    let s = store_with(50, 10);
    let t = s.transfer(1).unwrap();
    assert_eq!(cancel_energy_transfer(1, Some(t), None), Err(ContractError::EnergyOfferNotFound(1)));
    assert_eq!(energy_transfer_completed(1, 3, Some(t), None, now()), Err(ContractError::EnergyOfferNotFound(1)));
}

#[test]
fn handlers_count_overflow() {
    let r = publish_energy_transfer_offer(u64::MAX, "o".to_string(), "c".to_string(), location(), 1, "n".to_string(), PlugType::Unspecified);
    assert_eq!(r, Err(ContractError::Overflow));
    let offer = EnergyTransferOffer {
        id: 1,
        owner: "o".to_string(),
        charger_id: "c".to_string(),
        charger_status: ChargerStatus::Active,
        location: location(),
        tariff: 2,
        name: "n".to_string(),
        plug_type: PlugType::CHAdeMO,
    };
    let denom = DENOM.to_string();
    let r = start_energy_transfer("d".to_string(), Ok(()), 1, 3, Some(&offer), u64::MAX, coins(6), &denom, now());
    assert_eq!(r, Err(ContractError::Overflow));
    let (busy, t) = start_energy_transfer("d".to_string(), Ok(()), 1, 3, Some(&offer), 41, coins(6), &denom, now()).unwrap();
    assert_eq!(busy.charger_status, ChargerStatus::Busy);
    assert_eq!(t.id, 42);
    assert_eq!(t.collateral, 6);
    assert_eq!(t.paid_date, now());
}

#[test]
fn inactive_offer_can_be_removed_by_owner() {
    let offer = EnergyTransferOffer {
        id: 1,
        owner: "o".to_string(),
        charger_id: "c".to_string(),
        charger_status: ChargerStatus::Inactive,
        location: location(),
        tariff: 2,
        name: "n".to_string(),
        plug_type: PlugType::Type1,
    };
    assert_eq!(remove_energy_offer("o".to_string(), 1, Some(&offer)), Ok(()));
}

#[test]
fn filters_keep_order_and_match_exactly() {
    let mut s = Store::new(DENOM.to_string());
    for owner in ["a", "b", "a"] {
        s.publish_offer(owner.to_string(), "ch".to_string(), location(), 10, "n".to_string(), PlugType::Type1).unwrap();
    }
    s.start_transfer("d1".to_string(), Ok(()), 1, 1, coins(10), now()).unwrap();
    s.start_transfer("d2".to_string(), Ok(()), 2, 2, coins(20), now()).unwrap();
    s.start_transfer("d1".to_string(), Ok(()), 3, 3, coins(30), now()).unwrap();
    s.mark_transfer_started(3).unwrap();

    let a: Vec<u64> = offers_of_owner(s.offers(), &"a".to_string()).iter().map(|o| o.id).collect();
    assert_eq!(a, vec![1, 3]);
    let by_owner: Vec<u64> = transfers_of_owner(s.transfers(), &"a".to_string()).iter().map(|t| t.id).collect();
    assert_eq!(by_owner, vec![1, 3]);
    let d1_req: Vec<u64> =
        transfers_of_driver(s.transfers(), &"d1".to_string(), TransferStatus::Requested).iter().map(|t| t.id).collect();
    assert_eq!(d1_req, vec![1]);
    let d1_on: Vec<u64> =
        transfers_of_driver(s.transfers(), &"d1".to_string(), TransferStatus::Ongoing).iter().map(|t| t.id).collect();
    assert_eq!(d1_on, vec![3]);
    assert!(transfers_of_driver(s.transfers(), &"d3".to_string(), TransferStatus::Requested).is_empty());
}

#[test]
fn status_names_are_stable() {
    assert_eq!(ChargerStatus::Active.as_text(), "Active");
    assert_eq!(ChargerStatus::Busy.as_text(), "Busy");
    assert_eq!(ChargerStatus::Inactive.as_text(), "Inactive");
    assert_eq!(ChargerStatus::Unspecified.as_text(), "Unspecified");
    assert_eq!(TransferStatus::Requested.as_text(), "Requested");
    assert_eq!(TransferStatus::Ongoing.as_text(), "Ongoing");
    assert_eq!(TransferStatus::Paid.as_text(), "Paid");
    assert_eq!(TransferStatus::Cancelled.as_text(), "Cancelled");
    assert_eq!(TransferStatus::Unspecified.as_text(), "Unspecified");
}
