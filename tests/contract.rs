use std::collections::HashMap;
use std::str::FromStr;

use cosmwasm_std::{Decimal, Timestamp};
use ev::contract::{execute, instantiate, query};
use ev::error::ContractError;
use ev::msg::{
    ChargerStatus, Coin, ExecuteMsg, InstantiateMsg, Location, MessageInfo, Payout, PlugType,
    QueryAnswer, QueryMsg, TransferStatus,
};
use ev::store::Store;

const DRIVER_ADDRESS: &str = "c4e1n65nctlr97na2h9sjul94ge4y95uhtxwmhn9kx";
const CONTRACT_CREATOR_ADDRESS: &str = "c4e185qx6dnqry2d3crk24u3h3vtfzkqscvuvympam";
const CONNECTOR_ADDRESS: &str = "c4e15dwxa9jq7mjv3kpw3qxgx4v7asmh3yqh3zre47";
const OWNER_ADDRESS: &str = "c4e1lt5npfrl4fnvkxm387d8fc59x3vwugagm4vnzm";
const DENOM: &str = "uc4e";

/// A deployment together with the bank balances of the accounts that use it.
struct App {
    store: Store,
    balances: HashMap<String, u128>,
    time: u64,
}

fn setup_app() -> App {
    let store = instantiate(InstantiateMsg { denom: DENOM.to_string() });
    let mut balances = HashMap::new();
    for a in [CONTRACT_CREATOR_ADDRESS, DRIVER_ADDRESS, OWNER_ADDRESS, CONNECTOR_ADDRESS] {
        balances.insert(a.to_string(), 10000u128);
    }
    App { store, balances, time: 1_000 }
}

fn location() -> Location {
    Location { latitude: Decimal::from_str("60").unwrap(), longitude: Decimal::from_str("60").unwrap() }
}

fn coins(amount: u128) -> Vec<Coin> {
    vec![Coin { denom: DENOM.to_string(), amount }]
}

impl App {
    fn run(&mut self, sender: &str, msg: ExecuteMsg, funds: Vec<Coin>) -> Result<Vec<Payout>, ContractError> {
        self.time += 5;
        let paid: u128 = funds.iter().map(|c| c.amount).sum();
        let r = execute(
            &mut self.store,
            Timestamp::from_seconds(self.time),
            MessageInfo { sender: sender.to_string(), funds },
            Ok(()),
            msg,
        );
        if let Ok(payouts) = &r {
            *self.balances.get_mut(sender).unwrap() -= paid;
            for p in payouts {
                *self.balances.entry(p.recipient.clone()).or_insert(0) += p.amount as u128;
            }
        }
        r
    }

    fn balance(&self, who: &str) -> u128 {
        *self.balances.get(who).unwrap_or(&0)
    }

    fn transfer_status(&self, id: u64) -> TransferStatus {
        self.store.transfer(id).unwrap().status
    }

    fn offer_status(&self, id: u64) -> ChargerStatus {
        self.store.offer(id).unwrap().charger_status
    }
}

fn publish_msg(charger_id: &str, tariff: u64, name: &str) -> ExecuteMsg {
    ExecuteMsg::PublishEnergyTransferOffer {
        charger_id: charger_id.to_string(),
        location: location(),
        tariff,
        name: name.to_string(),
        plug_type: PlugType::Type1,
    }
}

fn execute_publish_offer(app: &mut App) {
    let res = app.run(OWNER_ADDRESS, publish_msg("charger1", 50, "offer1"), vec![]);
    assert!(res.is_ok());
}

fn execute_start_energy_transfer(app: &mut App, driver: &str, energy_transfer_offer_id: u64, energy_to_transfer: u64) {
    let res = app.run(
        driver,
        ExecuteMsg::StartEnergyTransfer {
            driver: driver.to_string(),
            energy_transfer_offer_id,
            energy_to_transfer,
        },
        coins(500),
    );
    assert!(res.is_ok());
}

fn execute_energy_transfer_started(app: &mut App, energy_transfer_id: u64) {
    let res = app.run(CONNECTOR_ADDRESS, ExecuteMsg::EnergyTransferStarted { energy_transfer_id }, vec![]);
    assert!(res.is_ok());
    assert_eq!(app.transfer_status(energy_transfer_id), TransferStatus::Ongoing);
}

fn execute_energy_transfer_completed(
    app: &mut App,
    energy_transfer_id: u64,
    used_service_units: u64,
    expected_owner_balance: u128,
    expected_driver_balance: u128,
) {
    let res = app.run(
        CONNECTOR_ADDRESS,
        ExecuteMsg::EnergyTransferCompleted { energy_transfer_id, used_service_units },
        vec![],
    );
    assert!(res.is_ok());
    assert_eq!(app.transfer_status(energy_transfer_id), TransferStatus::Paid);
    assert_eq!(app.balance(OWNER_ADDRESS), expected_owner_balance);
    assert_eq!(app.balance(DRIVER_ADDRESS), expected_driver_balance);
}

fn execute_cancel_energy_transfer(app: &mut App, user_address: &str, energy_transfer_id: u64, energy_transfer_offer_id: u64) {
    let res = app.run(user_address, ExecuteMsg::CancelEnergyTransfer { energy_transfer_id }, vec![]);
    assert!(res.is_ok());
    assert_eq!(app.transfer_status(energy_transfer_id), TransferStatus::Cancelled);
    assert_eq!(app.offer_status(energy_transfer_offer_id), ChargerStatus::Active);
}

fn execute_remove_energy_transfer(app: &mut App, energy_transfer_id: u64) {
    let res = app.run(CONNECTOR_ADDRESS, ExecuteMsg::RemoveEnergyTransfer { energy_transfer_id }, vec![]);
    assert!(res.is_ok());
    let q = query(&app.store, QueryMsg::EnergyTransfer { id: energy_transfer_id });
    assert_eq!(q, Err(ContractError::EnergyTransferNotFound(energy_transfer_id)));
}

fn query_all_transfers(app: &App, expected_len: usize) {
    match query(&app.store, QueryMsg::AllEnergyTransfers {}) {
        Ok(QueryAnswer::AllEnergyTransfers(r)) => assert_eq!(r.energy_transfers.len(), expected_len),
        other => panic!("unexpected answer {:?}", other),
    }
}

fn query_all_offers(app: &App, expected_len: usize) {
    match query(&app.store, QueryMsg::AllEnergyTransferOffers {}) {
        Ok(QueryAnswer::AllEnergyTransferOffers(r)) => assert_eq!(r.energy_transfer_offers.len(), expected_len),
        other => panic!("unexpected answer {:?}", other),
    }
}

fn validate_denom(app: &App, denom: &str) {
    match query(&app.store, QueryMsg::Denom {}) {
        Ok(QueryAnswer::Denom(r)) => assert_eq!(r.denom, denom),
        other => panic!("unexpected answer {:?}", other),
    }
}

#[test]
fn test_valid_start_energy_transfer() {
    let mut app = setup_app();
    execute_publish_offer(&mut app);
    execute_start_energy_transfer(&mut app, DRIVER_ADDRESS, 1, 10);

    let t = match query(&app.store, QueryMsg::EnergyTransfer { id: 1 }) {
        Ok(QueryAnswer::EnergyTransfer(r)) => r.energy_transfer,
        other => panic!("unexpected answer {:?}", other),
    };
    assert_eq!(t.id, 1);
    assert_eq!(t.offered_tariff, 50);
    assert_eq!(t.energy_to_transfer, 10);
    assert_eq!(t.status, TransferStatus::Requested);

    query_all_transfers(&app, 1);
}

#[test]
fn test_valid_energy_transfer_started() {
    let mut app = setup_app();
    execute_publish_offer(&mut app);
    execute_start_energy_transfer(&mut app, DRIVER_ADDRESS, 1, 10);
    execute_energy_transfer_started(&mut app, 1);

    let err = app
        .run("creator", ExecuteMsg::EnergyTransferStarted { energy_transfer_id: 1 }, vec![])
        .unwrap_err();
    assert_eq!(ContractError::InvalidEnergyTransferStatus(TransferStatus::Requested, TransferStatus::Ongoing), err);
}

#[test]
fn test_valid_energy_transfer_completed() {
    let mut app = setup_app();
    execute_publish_offer(&mut app);
    execute_start_energy_transfer(&mut app, DRIVER_ADDRESS, 1, 10);
    execute_energy_transfer_started(&mut app, 1);
    execute_energy_transfer_completed(&mut app, 1, 10, 10500, 9500);
}

#[test]
fn test_valid_energy_transfer_completed_half() {
    let mut app = setup_app();
    execute_publish_offer(&mut app);
    execute_start_energy_transfer(&mut app, DRIVER_ADDRESS, 1, 10);
    execute_energy_transfer_started(&mut app, 1);
    execute_energy_transfer_completed(&mut app, 1, 5, 10250, 9750);
}

#[test]
fn test_valid_energy_transfer_completed_none() {
    let mut app = setup_app();
    execute_publish_offer(&mut app);
    execute_start_energy_transfer(&mut app, DRIVER_ADDRESS, 1, 10);
    execute_energy_transfer_started(&mut app, 1);
    execute_energy_transfer_completed(&mut app, 1, 0, 10000, 10000);
}

#[test]
fn test_valid_energy_transfer_completed_and_remove() {
    let mut app = setup_app();
    execute_publish_offer(&mut app);
    execute_start_energy_transfer(&mut app, DRIVER_ADDRESS, 1, 10);
    execute_energy_transfer_started(&mut app, 1);
    execute_energy_transfer_completed(&mut app, 1, 5, 10250, 9750);
    execute_remove_energy_transfer(&mut app, 1);
}

#[test]
fn test_valid_cancel_energy_transfer() {
    let mut app = setup_app();
    execute_publish_offer(&mut app);
    execute_start_energy_transfer(&mut app, DRIVER_ADDRESS, 1, 10);
    query_all_transfers(&app, 1);
    execute_cancel_energy_transfer(&mut app, DRIVER_ADDRESS, 1, 1);

    let err = app
        .run(CONNECTOR_ADDRESS, ExecuteMsg::CancelEnergyTransfer { energy_transfer_id: 1 }, vec![])
        .unwrap_err();
    assert_eq!(ContractError::InvalidEnergyTransferStatus(TransferStatus::Requested, TransferStatus::Cancelled), err);
}

#[test]
fn test_publish_offer_and_query() {
    let mut app = setup_app();
    validate_denom(&app, "uc4e");
    execute_publish_offer(&mut app);

    let o = match query(&app.store, QueryMsg::EnergyTransferOffer { id: 1 }) {
        Ok(QueryAnswer::EnergyTransferOffer(r)) => r.energy_transfer_offer,
        other => panic!("unexpected answer {:?}", other),
    };
    assert_eq!(o.id, 1);
    assert_eq!(o.charger_id, "charger1");
    assert_eq!(o.tariff, 50);
    assert_eq!(o.name, "offer1");
}

#[test]
fn test_query_all_offers() {
    let mut app = setup_app();
    execute_publish_offer(&mut app);
    execute_publish_offer(&mut app);
    query_all_offers(&app, 2);
}

#[test]
fn test_query_offers_by_owner() {
    let mut app = setup_app();
    execute_publish_offer(&mut app);
    let q = query(&app.store, QueryMsg::EnergyTransferOffers { owner: OWNER_ADDRESS.to_string() });
    match q {
        Ok(QueryAnswer::EnergyTransferOffers(r)) => assert_eq!(r.energy_transfer_offers.len(), 1),
        other => panic!("unexpected answer {:?}", other),
    }
}

#[test]
fn test_publish_wrong_energy_offer() {
    let mut app = setup_app();

    let err = app.run("creator", publish_msg("", 50, "offer2"), vec![]).unwrap_err();
    assert_eq!(ContractError::CustomError { val: "charger_id and name must not be empty".to_string() }, err);

    let err = app.run("creator", publish_msg("charger2", 0, ""), vec![]).unwrap_err();
    assert_eq!(ContractError::CustomError { val: "charger_id and name must not be empty".to_string() }, err);
}

#[test]
fn test_remove_energy_offer() {
    let mut app = setup_app();
    execute_publish_offer(&mut app);

    let err = app.run("creator", ExecuteMsg::RemoveEnergyOffer { energy_offer_id: 10 }, vec![]).unwrap_err();
    assert_eq!(ContractError::EnergyOfferNotFound(10), err);

    let err = app.run("creator2", ExecuteMsg::RemoveEnergyOffer { energy_offer_id: 1 }, vec![]).unwrap_err();
    assert_eq!(ContractError::InvalidSigner("creator2".to_string()), err);

    let res = app.run(OWNER_ADDRESS, ExecuteMsg::RemoveEnergyOffer { energy_offer_id: 1 }, vec![]);
    assert!(res.is_ok());

    let q = query(&app.store, QueryMsg::EnergyTransferOffer { id: 1 });
    assert_eq!(q, Err(ContractError::EnergyOfferNotFound(1)));
}

#[test]
fn query_transfers_by_driver_status_and_owner() {
    let mut app = setup_app();
    execute_publish_offer(&mut app);
    execute_start_energy_transfer(&mut app, DRIVER_ADDRESS, 1, 10);

    let q = query(
        &app.store,
        QueryMsg::OwnEnergyTransfers { driver: DRIVER_ADDRESS.to_string(), transfer_status: TransferStatus::Requested },
    );
    match q {
        Ok(QueryAnswer::OwnEnergyTransfers(r)) => assert_eq!(r.energy_transfers.len(), 1),
        other => panic!("unexpected answer {:?}", other),
    }
    let q = query(
        &app.store,
        QueryMsg::OwnEnergyTransfers { driver: DRIVER_ADDRESS.to_string(), transfer_status: TransferStatus::Paid },
    );
    match q {
        Ok(QueryAnswer::OwnEnergyTransfers(r)) => assert!(r.energy_transfers.is_empty()),
        other => panic!("unexpected answer {:?}", other),
    }
    match query(&app.store, QueryMsg::EnergyTransfers { owner: OWNER_ADDRESS.to_string() }) {
        Ok(QueryAnswer::EnergyTransfers(r)) => assert_eq!(r.energy_transfers[0].id, 1),
        other => panic!("unexpected answer {:?}", other),
    }
    match query(&app.store, QueryMsg::EnergyTransfers { owner: DRIVER_ADDRESS.to_string() }) {
        Ok(QueryAnswer::EnergyTransfers(r)) => assert!(r.energy_transfers.is_empty()),
        other => panic!("unexpected answer {:?}", other),
    }
}

#[test]
fn start_with_wrong_funds_changes_nothing() {
    let mut app = setup_app();
    execute_publish_offer(&mut app);
    let msg = ExecuteMsg::StartEnergyTransfer {
        driver: DRIVER_ADDRESS.to_string(),
        energy_transfer_offer_id: 1,
        energy_to_transfer: 10,
    };
    let err = app.run(DRIVER_ADDRESS, msg, coins(400)).unwrap_err();
    assert_eq!(err, ContractError::InvalidFunds(Coin { denom: DENOM.to_string(), amount: 500 }, coins(400)));
    assert_eq!(app.offer_status(1), ChargerStatus::Active);
    assert_eq!(app.store.transfer_count(), 0);
    assert_eq!(app.balance(DRIVER_ADDRESS), 10000);
}
