//! The client configuration, as stored in `config.json`.

use vstd::prelude::*;

verus! {

/// Credentials and endpoint of a KuCoin account.
#[derive(Debug, Clone)]
pub struct Config {
    /// Whether the test listing file is used.
    pub test: bool,
    pub kucoin_key: String,
    pub kucoin_secret: String,
    pub kucoin_passphrase: String,
    pub base_url: String,
}

} // verus!
