//! Request signing, order building and stream-subscription logic for a
//! KuCoin trading client, with the outside calls (HMAC, Base64, clock,
//! UUIDs, JSON and URL parsing) behind small trusted wrappers.

pub mod auth;
pub mod signing;
pub mod trade;
pub mod trading;
#[allow(non_snake_case)]
pub mod Kucoin;
