//! The market-data websocket: the connection URL, the subscription
//! messages, and the records of the listings file.

use vstd::prelude::*;

use crate::signing::{nat_decimal, u8_to_decimal};

pub use crate::auth::FinalCredentials;

verus! {

/// A stream subscription: its request id and its coin pair.
pub struct SubscribeStream {
    id: u8,
    coin_pair: String,
}

/// A token announced for listing, and the date of its listing.
#[derive(Clone, Debug)]
pub struct Listing {
    pub listing_date: String,
    pub token: String,
}

/// The content of a listings file.
#[derive(Clone, Debug)]
pub struct Listings {
    pub listings: Vec<Listing>,
}

/// `url::ParseError`: why a text is no URL.
#[verifier::external_type_specification]
#[verifier::external_body]
pub struct ExParseError(url::ParseError);

/// Whether `url::Url::parse` accepts the text as an absolute URL (the WHATWG
/// URL parsing rules).
pub uninterp spec fn url_parse_accepts(input: Seq<char>) -> bool;

/// The serialization (`Url::as_str`) of the URL that `url::Url::parse`
/// makes of the text, where it accepts it.
pub uninterp spec fn url_serialization(input: Seq<char>) -> Seq<char>;

/// Parses with `url::Url::parse` and returns the parsed URL as its
/// serialization, `Url::as_str`. Claimed: it succeeds exactly when
/// `url_parse_accepts` holds of the text, and then returns
/// `url_serialization` of the text. Not stated: which error comes back.
#[verifier::external_body]
fn parse_url(input: &str) -> (res: Result<String, url::ParseError>)
    ensures
        res is Ok <==> url_parse_accepts(input@),
        res matches Ok(url) ==> url@ == url_serialization(input@),
{
    match url::Url::parse(input) {
        Ok(url) => Ok(url.as_str().to_owned()),
        Err(e) => Err(e),
    }
}

/// Why a websocket connection cannot be set up.
#[derive(Debug)]
pub enum WebSocketError {
    /// The endpoint and token do not form a URL.
    InvalidUrl(url::ParseError),
}

/// The connection text of `credentials`: the endpoint, `?token=`, the token.
pub open spec fn websocket_url_text(credentials: FinalCredentials) -> Seq<char> {
    credentials.endpoint@ + "?token="@ + credentials.token@
}

/// The connection text of `credentials`: the endpoint, `?token=`, the token.
pub fn websocket_url_string(credentials: &FinalCredentials) -> (text: String)
    ensures
        text@ == websocket_url_text(*credentials),
{
    let mut url_string = credentials.endpoint.clone();
    url_string.append("?token=");
    url_string.append(credentials.token.as_str());
    url_string
}

/// The URL to connect to with `credentials`, as the URL parser writes it;
/// refused exactly when its text is no URL.
pub fn websocket_url(credentials: &FinalCredentials) -> (res: Result<String, WebSocketError>)
    ensures
        res is Ok <==> url_parse_accepts(websocket_url_text(*credentials)),
        res matches Ok(url) ==> url@ == url_serialization(websocket_url_text(*credentials)),
{
    let url_string = websocket_url_string(credentials);
    match parse_url(url_string.as_str()) {
        Ok(uri) => Ok(uri),
        Err(e) => Err(WebSocketError::InvalidUrl(e)),
    }
}

/// The subscription request for the ticker of `token_pair` under request
/// id `id`.
pub open spec fn ticker_subscription_text(token_pair: Seq<char>, id: u8) -> Seq<char> {
    "{\"id\":"@ + nat_decimal(id as nat) + ", \"type\":\"subscribe\",\"topic\":\"/market/ticker:"@
        + token_pair + "\", \"response\":true}"@
}

/// The subscription request for the ticker of `token_pair` under request
/// id `id`, as the websocket expects it.
pub fn ticker_subscription(token_pair: &str, id: u8) -> (request: String)
    ensures
        request@ == ticker_subscription_text(token_pair@, id),
{
    let mut ws_request_txt = String::new();
    ws_request_txt.append("{\"id\":");
    let id_text = u8_to_decimal(id);
    ws_request_txt.append(id_text.as_str());
    ws_request_txt.append(", \"type\":\"subscribe\",\"topic\":\"/market/ticker:");
    ws_request_txt.append(token_pair);
    ws_request_txt.append("\", \"response\":true}");
    ws_request_txt
}

/// The file that holds the announced listings.
pub fn listings_file() -> (path: &'static str)
    ensures
        path@ == "./listings.json"@,
{
    "./listings.json"
}

} // verus!
