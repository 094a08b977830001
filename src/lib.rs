//! A client library for the guest-WiFi voucher endpoints of a network
//! controller: voucher normalisation, rolling-voucher selection and
//! replenishment, session handling with a single re-login retry, and the
//! nightly purge schedule.
//!
//! Every operation works on plain values: the caller fetches from the
//! controller, hands the answers in, and performs the exchanges that the
//! library asks for.

pub mod text;
pub mod clock;
pub mod models;
pub mod environment;
pub mod voucher_config;
pub mod normalize;
pub mod selector;
pub mod rolling;
pub mod create;
pub mod purge;
pub mod session;
