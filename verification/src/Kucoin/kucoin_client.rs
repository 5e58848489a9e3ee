//! The signed REST client: the passphrase signature, the authentication
//! headers of each request, and the bodies of the orders it places.

use std::collections::HashMap;
use vstd::prelude::*;
use vstd::utf8::*;

use crate::signing::{
    is_signature_text, lemma_nat_decimal_injective, nat_decimal, read_clock, ClockReading,
    i64_to_decimal, int_decimal, is_valid_header_value,
    lemma_i64_decimal_len, check_header_value,
    max_signed_text_len, sign_message, signature_of,
};
use crate::Kucoin::config::Config;

verus! {

/// A KuCoin account client: its credentials, the signature of its
/// passphrase, and the last balance fetched.
#[derive(Debug, Clone)]
pub struct Kucoin {
    api_key: String,
    api_secret: String,
    passphrase: String,
    base_url: String,
    passphrase_signature: String,
    pub wallet: Option<AccountBalanceResponse>,
}

/// What a [`Kucoin`] client holds, its texts as character sequences.
pub struct KucoinView {
    pub api_key: Seq<char>,
    pub api_secret: Seq<char>,
    pub passphrase: Seq<char>,
    pub base_url: Seq<char>,
    pub passphrase_signature: Seq<char>,
    pub wallet: Option<AccountBalanceResponse>,
}

impl View for Kucoin {
    type V = KucoinView;

    closed spec fn view(&self) -> KucoinView {
        KucoinView {
            api_key: self.api_key@,
            api_secret: self.api_secret@,
            passphrase: self.passphrase@,
            base_url: self.base_url@,
            passphrase_signature: self.passphrase_signature@,
            wallet: self.wallet,
        }
    }
}

/// The answer of the API to a request it refused.
#[derive(Clone, Debug)]
pub struct ErrorResponse {
    pub code: String,
    pub msg: String,
}

/// The accounts of the user, as `GET /api/v1/accounts` lists them.
#[derive(Clone, Debug)]
pub struct AccountBalanceResponse {
    pub code: String,
    pub data: Vec<Asset>,
}

/// One account: a currency in a wallet type, with its amounts as decimal text.
#[derive(Clone, Debug)]
pub struct Asset {
    pub id: String,
    pub currency: String,
    pub typ: String,
    pub balance: String,
    pub available: String,
    pub holds: String,
}

/// The body of a market order, `POST /api/v1/orders`.
#[derive(Clone, Debug)]
pub struct MarketOrderParams {
    pub client_oid: String,
    pub side: String,
    pub symbol: String,
    pub typ: String,
    pub trade_type: String,
    pub funds: String,
    pub size: String,
}

/// The terms of a limit order, `POST /api/v1/orders`, apart from its price
/// and size: the order is good till a time and may be cancelled after a
/// number of seconds.
#[derive(Clone, Debug)]
pub struct LimitOrderTerms {
    pub client_oid: String,
    pub side: String,
    pub symbol: String,
    pub typ: String,
    pub trade_type: String,
    pub time_in_force: Option<String>,
    pub cancel_after: Option<u32>,
    pub post_only: Option<bool>,
    /// The id drawn for this order, when the terms drew one.
    pub drawn_id: Option<DrawnClientOid>,
}

/// The answer of the API to an accepted market order.
#[derive(Clone, Debug)]
pub struct MarketOrderResponseSuccess {
    pub code: String,
    pub data: HashMap<String, String>,
}

/// The answer of the API to an accepted limit order.
#[derive(Clone, Debug)]
pub struct LimitOrderResponseSuccess {
    pub a: String,
}

/// The kind of authenticated request: an order, or the account balance.
pub enum TradeType {
    Trade(OrderType),
    Balance,
}

/// The side of an order.
pub enum OrderType {
    Buy,
    Sell,
}

/// The authentication headers of one request, by header name:
/// `kc-api-sign`, `kc-api-timestamp`, `kc-api-key`, `kc-api-passphrase`
/// and `kc-api-key-version`; for headers made now, also the clock reading
/// they were made at.
#[derive(Debug)]
pub struct KucoinHeaders {
    pub sign: String,
    pub timestamp: String,
    pub api_key: String,
    pub passphrase: String,
    pub key_version: String,
    pub stamp: Option<ClockReading>,
}

/// Character limit on a request body that is signed.
pub open spec fn max_request_body_len() -> nat {
    0x0100_0000_0000_0000
}

/// The HTTP method of a request of the given kind.
pub open spec fn request_method(trade_type: TradeType) -> Seq<char> {
    match trade_type {
        TradeType::Balance => "GET"@,
        TradeType::Trade(_) => "POST"@,
    }
}

/// The endpoint path of a request of the given kind.
pub open spec fn request_path(trade_type: TradeType) -> Seq<char> {
    match trade_type {
        TradeType::Balance => "/api/v1/accounts"@,
        TradeType::Trade(_) => "/api/v1/orders"@,
    }
}

/// The text that KuCoin's API expects signed: the timestamp in
/// milliseconds, the method, the endpoint path and the body, concatenated.
pub open spec fn prehash(trade_type: TradeType, timestamp: int, body: Seq<char>) -> Seq<char> {
    int_decimal(timestamp) + request_method(trade_type) + request_path(trade_type) + body
}

/// The value of the `side` field of an order.
pub open spec fn side_text(side: OrderType) -> Seq<char> {
    match side {
        OrderType::Buy => "buy"@,
        OrderType::Sell => "sell"@,
    }
}

/// The market symbol of a token quoted in USDT.
pub open spec fn usdt_symbol(token: Seq<char>) -> Seq<char> {
    token + "-USDT"@
}

/// A market order sets exactly one of its size and its funds.
pub open spec fn one_of_size_or_funds(size: Seq<char>, funds: Seq<char>) -> bool {
    (size.len() == 0) != (funds.len() == 0)
}

/// `c` is a lowercase hexadecimal digit.
pub open spec fn is_lower_hex(c: char) -> bool {
    ('0' <= c <= '9') || ('a' <= c <= 'f')
}

/// `text` is a random (version 4, RFC 4122 variant) UUID in hyphenated
/// lowercase form: `xxxxxxxx-xxxx-4xxx-yxxx-xxxxxxxxxxxx` with `y` in `8`..`b`.
pub open spec fn is_uuid_v4_text(text: Seq<char>) -> bool {
    &&& text.len() == 36
    &&& forall|i: int|
        0 <= i < 36 ==> (if i == 8 || i == 13 || i == 18 || i == 23 {
            #[trigger] text[i] == '-'
        } else {
            is_lower_hex(text[i])
        })
    &&& text[14] == '4'
    &&& (text[19] == '8' || text[19] == '9' || text[19] == 'a' || text[19] == 'b')
}

/// A client order id drawn from the UUID generator, its text as its view.
/// Only [`draw_client_oid`] makes one, so an id held by a call's result was
/// drawn by that call.
#[derive(Debug, Clone)]
pub struct DrawnClientOid {
    text: String,
}

impl View for DrawnClientOid {
    type V = Seq<char>;

    closed spec fn view(&self) -> Seq<char> {
        self.text@
    }
}

impl DrawnClientOid {
    /// The id's text.
    pub fn to_text(&self) -> (text: String)
        ensures
            text@ == self@,
    {
        self.text.clone()
    }
}

/// Draws a fresh client order id.
pub fn draw_client_oid() -> (oid: DrawnClientOid)
    ensures
        is_uuid_v4_text(oid@),
{
    DrawnClientOid { text: new_client_oid() }
}

/// Makes a client order id with `uuid::Uuid::new_v4()` and its `to_string`.
/// Claimed: the text is a hyphenated lowercase version-4 UUID (`new_v4` sets
/// the version and variant bits; `Display` writes the lowercase hyphenated
/// form). Not stated: which UUID, as it is random. The crate panics when the
/// operating system cannot supply random bytes; nothing in the arguments
/// excludes that.
#[verifier::external_body]
fn new_client_oid() -> (oid: String)
    ensures
        is_uuid_v4_text(oid@),
{
    uuid::Uuid::new_v4().to_string()
}

impl OrderType {
    /// The value of the `side` field of an order: `buy` or `sell`.
    pub fn side(&self) -> (text: &'static str)
        ensures
            text@ == side_text(*self),
    {
        match self {
            OrderType::Buy => "buy",
            OrderType::Sell => "sell",
        }
    }
}

/// The market symbol of `token` quoted in USDT: `token` followed by `-USDT`.
pub fn usdt_pair(token: String) -> (symbol: String)
    ensures
        symbol@ == usdt_symbol(token@),
{
    let mut symbol = token;
    symbol.append("-USDT");
    symbol
}

/// The body of a market order for `token` in USDT, with the given client
/// order id; exactly one of `size` and `funds` is set.
pub fn market_order_params(
    token: String,
    side: OrderType,
    size: &str,
    funds: &str,
    client_oid: String,
) -> (params: MarketOrderParams)
    requires
        one_of_size_or_funds(size@, funds@),
    ensures
        params.client_oid@ == client_oid@,
        params.side@ == side_text(side),
        params.symbol@ == usdt_symbol(token@),
        params.typ@ == "market"@,
        params.trade_type@ == "TRADE"@,
        params.funds@ == funds@,
        params.size@ == size@,
{
    MarketOrderParams {
        client_oid,
        side: side.side().to_owned(),
        symbol: usdt_pair(token),
        typ: "market".to_owned(),
        trade_type: "TRADE".to_owned(),
        funds: funds.to_owned(),
        size: size.to_owned(),
    }
}

/// The terms of a good-till-time limit order for `token` in USDT, with the
/// given client order id.
pub fn limit_order_terms(
    token: String,
    side: OrderType,
    cancel_after: Option<u32>,
    post_only: Option<bool>,
    client_oid: String,
) -> (terms: LimitOrderTerms)
    ensures
        terms.client_oid@ == client_oid@,
        terms.side@ == side_text(side),
        terms.symbol@ == usdt_symbol(token@),
        terms.typ@ == "limit"@,
        terms.trade_type@ == "TRADE"@,
        terms.time_in_force matches Some(t) && t@ == "GTT"@,
        terms.cancel_after == cancel_after,
        terms.post_only == post_only,
        terms.drawn_id is None,
{
    LimitOrderTerms {
        client_oid,
        side: side.side().to_owned(),
        symbol: usdt_pair(token),
        typ: "limit".to_owned(),
        trade_type: "TRADE".to_owned(),
        time_in_force: Some("GTT".to_owned()),
        cancel_after,
        post_only,
        drawn_id: None,
    }
}

/// Whether a market order sets exactly one of its size and its funds.
pub fn is_single_amount(size: &str, funds: &str) -> (single: bool)
    ensures
        single == one_of_size_or_funds(size@, funds@),
{
    size.is_empty() != funds.is_empty()
}

/// Limit orders prepared with two different draws of the UUID generator
/// carry different client order ids, each the text of its own draw.
pub proof fn lemma_drawn_terms_have_distinct_ids(
    first: LimitOrderTerms,
    first_draw: DrawnClientOid,
    second: LimitOrderTerms,
    second_draw: DrawnClientOid,
)
    requires
        first.drawn_id == Some(first_draw),
        first.client_oid@ == first_draw@,
        second.drawn_id == Some(second_draw),
        second.client_oid@ == second_draw@,
        first_draw@ != second_draw@,
    ensures
        first.client_oid@ != second.client_oid@,
{
}

/// The outcome of a market order from the two readings of the answer: the
/// accepted order when the answer reads as one, else the refusal when it
/// reads as one, else nothing.
pub fn market_order_result(
    success: Option<MarketOrderResponseSuccess>,
    refusal: Option<ErrorResponse>,
) -> (outcome: Option<Result<MarketOrderResponseSuccess, ErrorResponse>>)
    ensures
        success matches Some(s) ==> outcome == Some(Ok::<MarketOrderResponseSuccess, ErrorResponse>(s)),
        success is None ==> outcome == match refusal {
            Some(e) => Some(Err::<MarketOrderResponseSuccess, ErrorResponse>(e)),
            None => None,
        },
{
    match success {
        Some(s) => Some(Ok(s)),
        None => match refusal {
            Some(e) => Some(Err(e)),
            None => None,
        },
    }
}

/// The headers of a request can be checked from the request alone: the
/// signature is that of the timestamp header followed by the method, the
/// path and the body, and the passphrase header is the signed passphrase.
pub proof fn lemma_headers_verifiable(
    client: Kucoin,
    trade_type: TradeType,
    body: Seq<char>,
    timestamp: int,
    headers: KucoinHeaders,
)
    requires
        client.wf(),
        client.signed_headers(trade_type, body, timestamp, headers),
    ensures
        headers.sign@ == signature_of(
            client@.api_secret,
            headers.timestamp@ + request_method(trade_type) + request_path(trade_type) + body,
        ),
        headers.passphrase@ == signature_of(client@.api_secret, client@.passphrase),
{
}

/// The headers of a request are determined by the client, the kind of
/// request, its body and its timestamp.
pub proof fn lemma_signed_headers_determined(
    client: Kucoin,
    trade_type: TradeType,
    body: Seq<char>,
    timestamp: int,
    first: KucoinHeaders,
    second: KucoinHeaders,
)
    requires
        client.signed_headers(trade_type, body, timestamp, first),
        client.signed_headers(trade_type, body, timestamp, second),
    ensures
        first.sign@ == second.sign@,
        first.timestamp@ == second.timestamp@,
        first.api_key@ == second.api_key@,
        first.passphrase@ == second.passphrase@,
        first.key_version@ == second.key_version@,
{
}

/// Headers made now carry the clock reading they were made at as their
/// timestamp header, and their signature is that of this header followed by
/// the method, the path and the body.
pub proof fn lemma_made_now_carries_reading(
    client: Kucoin,
    trade_type: TradeType,
    body: Seq<char>,
    reading: ClockReading,
    headers: KucoinHeaders,
)
    requires
        client.made_now(trade_type, body, reading, headers),
    ensures
        headers.timestamp@ == nat_decimal(reading@ as nat),
        headers.sign@ == signature_of(
            client@.api_secret,
            headers.timestamp@ + request_method(trade_type) + request_path(trade_type) + body,
        ),
{
}

/// Headers made at two different clock readings carry different timestamp
/// headers: the timestamp a request carries tells when it was made.
pub proof fn lemma_readings_give_distinct_timestamps(
    client: Kucoin,
    trade_type: TradeType,
    body: Seq<char>,
    first_reading: ClockReading,
    first: KucoinHeaders,
    second_reading: ClockReading,
    second: KucoinHeaders,
)
    requires
        client.made_now(trade_type, body, first_reading, first),
        client.made_now(trade_type, body, second_reading, second),
        first_reading@ != second_reading@,
    ensures
        first.timestamp@ != second.timestamp@,
{
    if first.timestamp@ == second.timestamp@ {
        lemma_nat_decimal_injective(first_reading@ as nat, second_reading@ as nat);
    }
}

impl Kucoin {
    /// The client's invariant: its passphrase signature is the signature of
    /// its passphrase under its secret, and the secret can key a signature.
    pub open spec fn wf(&self) -> bool {
        &&& self@.api_secret.len() < max_signed_text_len()
        &&& self@.passphrase_signature == signature_of(self@.api_secret, self@.passphrase)
        &&& is_signature_text(self@.passphrase_signature)
        &&& is_valid_header_value(encode_utf8(self@.passphrase_signature))
    }

    /// `headers` authenticate a request of kind `trade_type` with body `body`
    /// made at `timestamp`.
    pub open spec fn signed_headers(
        &self,
        trade_type: TradeType,
        body: Seq<char>,
        timestamp: int,
        headers: KucoinHeaders,
    ) -> bool {
        &&& headers.sign@ == signature_of(self@.api_secret, prehash(trade_type, timestamp, body))
        &&& headers.timestamp@ == int_decimal(timestamp)
        &&& headers.api_key@ == self@.api_key
        &&& headers.passphrase@ == self@.passphrase_signature
        &&& headers.key_version@ == "2"@
    }

    /// `headers` authenticate a request of kind `trade_type` with body `body`
    /// made at the clock reading `reading`: they carry and sign its time.
    pub open spec fn made_now(
        &self,
        trade_type: TradeType,
        body: Seq<char>,
        reading: ClockReading,
        headers: KucoinHeaders,
    ) -> bool {
        &&& reading@ >= 0
        &&& self.signed_headers(trade_type, body, reading@, headers)
    }

    /// A client for the account of `config`, with no balance fetched yet.
    pub fn new(config_obj: &Config) -> (client: Kucoin)
        requires
            config_obj.kucoin_secret@.len() < max_signed_text_len(),
            config_obj.kucoin_passphrase@.len() < max_signed_text_len(),
        ensures
            client.wf(),
            client@.api_key == config_obj.kucoin_key@,
            client@.api_secret == config_obj.kucoin_secret@,
            client@.passphrase == config_obj.kucoin_passphrase@,
            client@.base_url == config_obj.base_url@,
            client@.wallet is None,
    {
        let encoded_passphrase = Kucoin::generate_encrypted_passphrase(
            &config_obj.kucoin_secret,
            &config_obj.kucoin_passphrase,
        );
        Kucoin {
            api_key: config_obj.kucoin_key.clone(),
            api_secret: config_obj.kucoin_secret.clone(),
            passphrase: config_obj.kucoin_passphrase.clone(),
            base_url: config_obj.base_url.clone(),
            passphrase_signature: encoded_passphrase,
            wallet: None,
        }
    }

    /// The passphrase as API keys of version 2 send it: signed with the secret.
    pub fn generate_encrypted_passphrase(api_secret: &String, passphrase: &String) -> (encoded: String)
        requires
            api_secret@.len() < max_signed_text_len(),
            passphrase@.len() < max_signed_text_len(),
        ensures
            encoded@ == signature_of(api_secret@, passphrase@),
            is_signature_text(encoded@),
            is_valid_header_value(encode_utf8(encoded@)),
    {
        sign_message(api_secret.as_str(), passphrase.as_str())
    }

    /// The authentication headers of a request made at `timestamp`; the API
    /// key must be a valid header value.
    pub fn create_headers_at(&self, trade_type: &TradeType, request_body: &str, timestamp: i64) -> (res: Result<
        KucoinHeaders,
        reqwest::header::InvalidHeaderValue,
    >)
        requires
            self.wf(),
            is_valid_header_value(encode_utf8(self@.api_key)),
            request_body@.len() < max_request_body_len(),
        ensures
            res is Ok,
            res matches Ok(headers) ==> self.signed_headers(*trade_type, request_body@, timestamp as int, headers),
            res matches Ok(headers) ==> is_signature_text(headers.sign@),
            res matches Ok(headers) ==> is_valid_header_value(encode_utf8(headers.sign@)),
            res matches Ok(headers) ==> is_valid_header_value(encode_utf8(headers.passphrase@)),
            res matches Ok(headers) ==> headers.stamp is None,
    {
        let stamp = i64_to_decimal(timestamp);
        let mut str_to_sign = i64_to_decimal(timestamp);
        match trade_type {
            TradeType::Balance => {
                str_to_sign.append("GET");
                str_to_sign.append("/api/v1/accounts");
            },
            TradeType::Trade(_) => {
                str_to_sign.append("POST");
                str_to_sign.append("/api/v1/orders");
            },
        }
        str_to_sign.append(request_body);
        proof {
            reveal_strlit("GET");
            reveal_strlit("POST");
            reveal_strlit("/api/v1/accounts");
            reveal_strlit("/api/v1/orders");
            lemma_i64_decimal_len(timestamp);
            assert(str_to_sign@ =~= prehash(*trade_type, timestamp as int, request_body@));
        }
        let signature = sign_message(self.api_secret.as_str(), str_to_sign.as_str());
        match check_header_value(self.api_key.as_str()) {
            Ok(()) => {},
            Err(e) => {
                return Err(e);
            },
        }
        Ok(
            KucoinHeaders {
                sign: signature,
                timestamp: stamp,
                api_key: self.api_key.clone(),
                passphrase: self.passphrase_signature.clone(),
                key_version: "2".to_owned(),
                stamp: None,
            },
        )
    }

    /// The authentication headers of a request made now, signed with the
    /// same timestamp that they carry; the API key must be a valid header
    /// value.
    pub fn create_headers(&self, trade_type: TradeType, request_body: &str) -> (res: Result<
        KucoinHeaders,
        reqwest::header::InvalidHeaderValue,
    >)
        requires
            self.wf(),
            is_valid_header_value(encode_utf8(self@.api_key)),
            request_body@.len() < max_request_body_len(),
        ensures
            res is Ok,
            res matches Ok(headers) ==> is_signature_text(headers.sign@),
            res matches Ok(headers) ==> (headers.stamp matches Some(reading) && self.made_now(
                trade_type,
                request_body@,
                reading,
                headers,
            )),
            res matches Ok(headers) ==> exists|timestamp: int|
                timestamp >= 0 && #[trigger] self.signed_headers(trade_type, request_body@, timestamp, headers),
    {
        let now = read_clock();
        match self.create_headers_at(&trade_type, request_body, now.millis()) {
            Ok(mut headers) => {
                headers.stamp = Some(now);
                Ok(headers)
            },
            Err(e) => Err(e),
        }
    }

    /// Whether the API key can be sent as a header value, which the
    /// authentication headers need.
    pub fn has_valid_api_key(&self) -> (valid: bool)
        ensures
            valid == is_valid_header_value(encode_utf8(self@.api_key)),
    {
        check_header_value(self.api_key.as_str()).is_ok()
    }

    /// The URL of the accounts endpoint.
    pub fn accounts_url(&self) -> (url: String)
        ensures
            url@ == self@.base_url + "/api/v1/accounts"@,
    {
        let mut url = self.base_url.clone();
        url.append("/api/v1/accounts");
        url
    }

    /// The URL of the orders endpoint.
    pub fn orders_url(&self) -> (url: String)
        ensures
            url@ == self@.base_url + "/api/v1/orders"@,
    {
        let mut url = self.base_url.clone();
        url.append("/api/v1/orders");
        url
    }

    /// The body of a market order for `token` in USDT with a fresh random
    /// client order id; exactly one of `size` and `funds` is set.
    pub fn prepare_market_order(&self, token: String, side: OrderType, size: &str, funds: &str) -> (params:
        MarketOrderParams)
        requires
            one_of_size_or_funds(size@, funds@),
        ensures
            is_uuid_v4_text(params.client_oid@),
            params.side@ == side_text(side),
            params.symbol@ == usdt_symbol(token@),
            params.typ@ == "market"@,
            params.trade_type@ == "TRADE"@,
            params.funds@ == funds@,
            params.size@ == size@,
    {
        let uid = new_client_oid();
        market_order_params(token, side, size, funds, uid)
    }

    /// The terms of a good-till-time limit order for `token` in USDT with a
    /// fresh random client order id.
    pub fn prepare_limit_order(
        &self,
        token: String,
        side: OrderType,
        cancel_after: Option<u32>,
        post_only: Option<bool>,
    ) -> (terms: LimitOrderTerms)
        ensures
            is_uuid_v4_text(terms.client_oid@),
            terms.side@ == side_text(side),
            terms.symbol@ == usdt_symbol(token@),
            terms.typ@ == "limit"@,
            terms.trade_type@ == "TRADE"@,
            terms.time_in_force matches Some(t) && t@ == "GTT"@,
            terms.cancel_after == cancel_after,
            terms.post_only == post_only,
            terms.drawn_id matches Some(drawn) && terms.client_oid@ == drawn@,
    {
        let drawn = draw_client_oid();
        let mut terms = limit_order_terms(token, side, cancel_after, post_only, drawn.to_text());
        terms.drawn_id = Some(drawn);
        terms
    }
}

} // verus!
