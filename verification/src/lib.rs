//! Decodes the economic effect of a single ledger transaction that exchanges
//! the network's native coin for a fungible token: how much of each asset
//! moved, to and from whom, and in which direction (buy or sell).

pub mod action;
pub mod amount;
pub mod format;
pub mod frames;
pub mod hexparse;
pub mod holdings;
pub mod logs;
pub mod report;
pub mod sim;
