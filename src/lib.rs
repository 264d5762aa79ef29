//! Settlement engine for a peer-to-peer charging marketplace: offers,
//! reservations with escrowed collateral, and their exact settlement.

pub mod contract;
pub mod error;
pub mod execute;
pub mod laws;
pub mod msg;
pub mod query;
pub mod reservation;
pub mod settlement;
pub mod store;
