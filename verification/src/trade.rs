//! The first KuCoin client: it signs its two endpoints once, when it is
//! created, and reuses those signatures in the headers of every request.

use vstd::prelude::*;
use vstd::utf8::encode_utf8;

use crate::signing::{
    check_header_value, current_timestamp_millis, i64_to_decimal, int_decimal, is_signature_text,
    is_valid_header_value, lemma_i64_decimal_len, max_signed_text_len, read_clock, sign_message, signature_of,
    lemma_nat_decimal_injective, ClockReading, ClockRecord,
};
use crate::Kucoin::config::Config;
use crate::Kucoin::kucoin_client;

pub use crate::auth::FinalCredentials;
pub use crate::Kucoin::kucoin_client::{AccountBalanceResponse, Asset, KucoinHeaders};
pub use crate::Kucoin::websocket::{Listing, Listings, SubscribeStream};

verus! {

/// A KuCoin client with its endpoint signatures computed in advance.
#[derive(Debug, Clone)]
pub struct Kucoin {
    api_key: String,
    api_secret: String,
    passphrase: String,
    base_url: String,
    passphrase_signature: String,
    trade_signature: String,
    balance_signature: String,
    created: ClockRecord,
}

/// What a [`Kucoin`] client holds, its texts as character sequences.
pub struct KucoinView {
    pub api_key: Seq<char>,
    pub api_secret: Seq<char>,
    pub passphrase: Seq<char>,
    pub base_url: Seq<char>,
    pub passphrase_signature: Seq<char>,
    pub trade_signature: Seq<char>,
    pub balance_signature: Seq<char>,
    /// The clock reading taken when the client was created.
    pub created_at: int,
}

impl View for Kucoin {
    type V = KucoinView;

    closed spec fn view(&self) -> KucoinView {
        KucoinView {
            api_key: self.api_key@,
            api_secret: self.api_secret@,
            passphrase: self.passphrase@,
            base_url: self.base_url@,
            passphrase_signature: self.passphrase_signature@,
            trade_signature: self.trade_signature@,
            balance_signature: self.balance_signature@,
            created_at: self.created@,
        }
    }
}

/// The kind of authenticated request: an order, or the account balance.
pub enum TradeType {
    Trade,
    Balance,
}

/// The text signed for the order endpoint at `timestamp`.
pub open spec fn trade_prehash(timestamp: int) -> Seq<char> {
    int_decimal(timestamp) + "GET"@ + "/api/v1/orders"@
}

/// The text signed for the balance endpoint at `timestamp`.
pub open spec fn balance_prehash(timestamp: int) -> Seq<char> {
    int_decimal(timestamp) + "GET"@ + "/api/v1/accounts"@
}

/// The two endpoint signatures of `secret` at `timestamp`: for the order
/// endpoint, then for the balance endpoint.
pub open spec fn endpoint_signatures(secret: Seq<char>, timestamp: int) -> (Seq<char>, Seq<char>) {
    (signature_of(secret, trade_prehash(timestamp)), signature_of(secret, balance_prehash(timestamp)))
}

/// The listings file the configuration selects: the test file in test mode.
pub open spec fn listings_path_text(test: bool) -> Seq<char> {
    if test {
        "./listings_test.json"@
    } else {
        "./listings.json"@
    }
}

/// The listings file that `config` selects: `./listings_test.json` in test
/// mode, else `./listings.json`.
pub fn listings_path(config: &Config) -> (path: &'static str)
    ensures
        path@ == listings_path_text(config.test),
{
    if config.test {
        "./listings_test.json"
    } else {
        "./listings.json"
    }
}

/// Both clients sign the balance endpoint alike: the balance signature made
/// here at a timestamp is the signature of a body-less balance request made
/// at that timestamp by the client of `kucoin_client`.
pub proof fn lemma_balance_signature_agrees(secret: Seq<char>, timestamp: int)
    ensures
        endpoint_signatures(secret, timestamp).1 == signature_of(
            secret,
            kucoin_client::prehash(kucoin_client::TradeType::Balance, timestamp, Seq::empty()),
        ),
{
    assert(balance_prehash(timestamp) =~= kucoin_client::prehash(
        kucoin_client::TradeType::Balance,
        timestamp,
        Seq::empty(),
    ));
}

/// The balance signature a client holds from its creation is the signature
/// that a body-less balance request made at its creation reading carries.
pub proof fn lemma_creation_balance_signature(client: Kucoin)
    requires
        endpoint_signatures(client@.api_secret, client@.created_at) == (
            client@.trade_signature,
            client@.balance_signature,
        ),
    ensures
        client@.balance_signature == signature_of(
            client@.api_secret,
            kucoin_client::prehash(kucoin_client::TradeType::Balance, client@.created_at, Seq::empty()),
        ),
{
    lemma_balance_signature_agrees(client@.api_secret, client@.created_at);
}

/// Headers made now at two different clock readings carry different
/// timestamp headers and the same signature, the one made at creation.
pub proof fn lemma_made_now_keeps_signature(
    client: Kucoin,
    trade_type: TradeType,
    first_reading: ClockReading,
    first: KucoinHeaders,
    second_reading: ClockReading,
    second: KucoinHeaders,
)
    requires
        client.made_now(trade_type, first_reading, first),
        client.made_now(trade_type, second_reading, second),
        first_reading@ != second_reading@,
    ensures
        first.timestamp@ != second.timestamp@,
        first.sign@ == second.sign@,
{
    if first.timestamp@ == second.timestamp@ {
        lemma_nat_decimal_injective(first_reading@ as nat, second_reading@ as nat);
    }
}

impl Kucoin {
    /// `headers` of a request of kind `trade_type` were made at the clock
    /// reading `reading`: they carry its time and the creation signature of
    /// that endpoint.
    pub open spec fn made_now(&self, trade_type: TradeType, reading: ClockReading, headers: KucoinHeaders) -> bool {
        &&& reading@ >= 0
        &&& headers.timestamp@ == int_decimal(reading@)
        &&& headers.sign@ == match trade_type {
            TradeType::Trade => self@.trade_signature,
            TradeType::Balance => self@.balance_signature,
        }
    }

    /// The client's invariant: its signatures are those of its passphrase
    /// and of its two endpoints at one and the same time.
    pub open spec fn wf(&self) -> bool {
        &&& self@.api_secret.len() < max_signed_text_len()
        &&& self@.passphrase_signature == signature_of(self@.api_secret, self@.passphrase)
        &&& is_signature_text(self@.passphrase_signature)
        &&& is_signature_text(self@.trade_signature)
        &&& is_signature_text(self@.balance_signature)
        &&& is_valid_header_value(encode_utf8(self@.passphrase_signature))
        &&& is_valid_header_value(encode_utf8(self@.trade_signature))
        &&& is_valid_header_value(encode_utf8(self@.balance_signature))
        &&& exists|timestamp: int|
            timestamp >= 0 && #[trigger] endpoint_signatures(self@.api_secret, timestamp) == (
                self@.trade_signature,
                self@.balance_signature,
            )
    }

    /// A client for the given credentials, its endpoints signed now.
    pub fn new(api_key: String, api_secret: String, passphrase: String, base_url: String) -> (client:
        Kucoin)
        requires
            api_secret@.len() < max_signed_text_len(),
            passphrase@.len() < max_signed_text_len(),
        ensures
            client.wf(),
            client@.api_key == api_key@,
            client@.api_secret == api_secret@,
            client@.passphrase == passphrase@,
            client@.base_url == base_url@,
            client@.created_at >= 0,
            endpoint_signatures(client@.api_secret, client@.created_at) == (
                client@.trade_signature,
                client@.balance_signature,
            ),
    {
        let encoded_passphrase = Kucoin::generate_encrypted_passphrase(&api_secret, &passphrase);
        let utc = read_clock();
        let (encoded_trade_sign, encoded_balance_sign) = Kucoin::endpoint_signatures_at(
            &api_secret,
            utc.millis(),
        );
        let client = Kucoin {
            api_key,
            api_secret,
            passphrase,
            base_url,
            passphrase_signature: encoded_passphrase,
            trade_signature: encoded_trade_sign,
            balance_signature: encoded_balance_sign,
            created: utc.record(),
        };
        proof {
            assert(endpoint_signatures(client@.api_secret, client@.created_at) == (
                client@.trade_signature,
                client@.balance_signature,
            ));
        }
        client
    }

    /// The passphrase as API keys of version 2 send it: signed with the secret.
    pub fn generate_encrypted_passphrase(api_secret: &String, passphrase: &String) -> (encoded: String)
        requires
            api_secret@.len() < max_signed_text_len(),
            passphrase@.len() < max_signed_text_len(),
        ensures
            encoded@ == signature_of(api_secret@, passphrase@),
            is_signature_text(encoded@),
            is_valid_header_value(encode_utf8(encoded@)),
    {
        sign_message(api_secret.as_str(), passphrase.as_str())
    }

    /// The signatures of the order and balance endpoints at `timestamp`.
    pub fn endpoint_signatures_at(api_secret: &String, timestamp: i64) -> (signatures: (String, String))
        requires
            api_secret@.len() < max_signed_text_len(),
        ensures
            (signatures.0@, signatures.1@) == endpoint_signatures(api_secret@, timestamp as int),
            is_signature_text(signatures.0@),
            is_signature_text(signatures.1@),
            is_valid_header_value(encode_utf8(signatures.0@)),
            is_valid_header_value(encode_utf8(signatures.1@)),
    {
        let mut trade_str_to_sign = i64_to_decimal(timestamp);
        trade_str_to_sign.append("GET");
        trade_str_to_sign.append("/api/v1/orders");
        let mut balance_str_to_sign = i64_to_decimal(timestamp);
        balance_str_to_sign.append("GET");
        balance_str_to_sign.append("/api/v1/accounts");
        proof {
            reveal_strlit("GET");
            reveal_strlit("/api/v1/orders");
            reveal_strlit("/api/v1/accounts");
            lemma_i64_decimal_len(timestamp);
        }
        let trade_signature = sign_message(api_secret.as_str(), trade_str_to_sign.as_str());
        let balance_signature = sign_message(api_secret.as_str(), balance_str_to_sign.as_str());
        (trade_signature, balance_signature)
    }

    /// The signatures of the order and balance endpoints, both at the
    /// current time.
    pub fn generate_endpoint_signatures(api_secret: &String) -> (signatures: (String, String))
        requires
            api_secret@.len() < max_signed_text_len(),
        ensures
            exists|timestamp: int|
                timestamp >= 0 && #[trigger] endpoint_signatures(api_secret@, timestamp) == (
                    signatures.0@,
                    signatures.1@,
                ),
            is_signature_text(signatures.0@),
            is_signature_text(signatures.1@),
            is_valid_header_value(encode_utf8(signatures.0@)),
            is_valid_header_value(encode_utf8(signatures.1@)),
    {
        let utc = current_timestamp_millis();
        Kucoin::endpoint_signatures_at(api_secret, utc)
    }

    /// The authentication headers of a request of kind `trade_type` sent at
    /// `timestamp`, carrying the signature made for that endpoint when the
    /// client was created. They are refused exactly when the API key is no
    /// valid header value.
    pub fn create_headers_at(&self, trade_type: TradeType, timestamp: i64) -> (res: Result<
        KucoinHeaders,
        reqwest::header::InvalidHeaderValue,
    >)
        requires
            self.wf(),
        ensures
            res is Ok <==> is_valid_header_value(encode_utf8(self@.api_key)),
            res matches Ok(headers) ==> {
                &&& headers.sign@ == match trade_type {
                    TradeType::Trade => self@.trade_signature,
                    TradeType::Balance => self@.balance_signature,
                }
                &&& headers.timestamp@ == int_decimal(timestamp as int)
                &&& headers.api_key@ == self@.api_key
                &&& headers.passphrase@ == self@.passphrase_signature
                &&& headers.key_version@ == "2"@
                &&& is_signature_text(headers.sign@)
                &&& is_valid_header_value(encode_utf8(headers.sign@))
                &&& is_valid_header_value(encode_utf8(headers.passphrase@))
                &&& headers.stamp is None
            },
    {
        let sign = match trade_type {
            TradeType::Trade => self.trade_signature.clone(),
            TradeType::Balance => self.balance_signature.clone(),
        };
        match check_header_value(self.api_key.as_str()) {
            Ok(()) => {},
            Err(e) => {
                return Err(e);
            },
        }
        Ok(
            KucoinHeaders {
                sign,
                timestamp: i64_to_decimal(timestamp),
                api_key: self.api_key.clone(),
                passphrase: self.passphrase_signature.clone(),
                key_version: "2".to_owned(),
                stamp: None,
            },
        )
    }

    /// The authentication headers of a request of kind `trade_type` sent
    /// now; the API key must be a valid header value.
    pub fn create_headers(&self, trade_type: TradeType) -> (res: Result<
        KucoinHeaders,
        reqwest::header::InvalidHeaderValue,
    >)
        requires
            self.wf(),
            is_valid_header_value(encode_utf8(self@.api_key)),
        ensures
            res is Ok,
            res matches Ok(headers) ==> {
                &&& headers.sign@ == match trade_type {
                    TradeType::Trade => self@.trade_signature,
                    TradeType::Balance => self@.balance_signature,
                }
                &&& exists|timestamp: int|
                    timestamp >= 0 && headers.timestamp@ == #[trigger] int_decimal(timestamp)
                &&& headers.api_key@ == self@.api_key
                &&& headers.passphrase@ == self@.passphrase_signature
                &&& headers.key_version@ == "2"@
                &&& is_signature_text(headers.sign@)
                &&& headers.stamp matches Some(reading) && reading@ >= 0 && headers.timestamp@
                    == int_decimal(reading@)
                &&& headers.stamp matches Some(reading) && self.made_now(trade_type, reading, headers)
            },
    {
        let utc = read_clock();
        match self.create_headers_at(trade_type, utc.millis()) {
            Ok(mut headers) => {
                headers.stamp = Some(utc);
                Ok(headers)
            },
            Err(e) => Err(e),
        }
    }

    /// Whether the API key can be sent as a header value, which the
    /// authentication headers need.
    pub fn has_valid_api_key(&self) -> (valid: bool)
        ensures
            valid == is_valid_header_value(encode_utf8(self@.api_key)),
    {
        check_header_value(self.api_key.as_str()).is_ok()
    }

    /// The URL of the accounts endpoint.
    pub fn accounts_url(&self) -> (url: String)
        ensures
            url@ == self@.base_url + "/api/v1/accounts"@,
    {
        let mut url = self.base_url.clone();
        url.append("/api/v1/accounts");
        url
    }
}

} // verus!
