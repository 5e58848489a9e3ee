//! The KuCoin spot client: its configuration, the signed REST requests and
//! the market-data websocket.

pub mod config;
pub mod kucoin_client;
pub mod websocket;
