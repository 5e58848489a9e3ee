use kucoin_trade::auth::{FinalCredentials, InstanceServer, Token, TokenResponse};
use kucoin_trade::Kucoin::websocket::{listings_file, ticker_subscription, websocket_url, websocket_url_string};

fn credentials(endpoint: &str) -> FinalCredentials {
    FinalCredentials { token: "abc123".to_string(), endpoint: endpoint.to_string() }
}

#[test]
fn equal_answers_give_equal_credentials() {
    let answer = || TokenResponse {
        code: "200000".to_string(),
        data: Token {
            token: "tok".to_string(),
            instance_servers: vec![InstanceServer {
                endpoint: "wss://a/".to_string(),
                encrypt: true,
                protocol: "websocket".to_string(),
                ping_interval: 1,
                ping_timeout: 2,
            }],
        },
    };
    let first = FinalCredentials::from_token_response(answer());
    let second = FinalCredentials::from_token_response(answer());
    assert_eq!(first.token, second.token);
    assert_eq!(first.endpoint, second.endpoint);
}

#[test]
fn credentials_take_the_first_server() {
    let server = |endpoint: &str| InstanceServer {
        endpoint: endpoint.to_string(),
        encrypt: true,
        protocol: "websocket".to_string(),
        ping_interval: 18000,
        ping_timeout: 10000,
    };
    let response = TokenResponse {
        code: "200000".to_string(),
        data: Token {
            token: "tok".to_string(),
            instance_servers: vec![server("wss://ws-api-spot.kucoin.com/"), server("wss://other/")],
        },
    };
    let cred = FinalCredentials::from_token_response(response);
    assert_eq!(cred.token, "tok");
    assert_eq!(cred.endpoint, "wss://ws-api-spot.kucoin.com/");
}

#[test]
fn websocket_url_joins_endpoint_and_token() {
    let cred = credentials("wss://ws-api-spot.kucoin.com/");
    assert_eq!(websocket_url_string(&cred), "wss://ws-api-spot.kucoin.com/?token=abc123");
    assert_eq!(websocket_url(&cred).unwrap(), "wss://ws-api-spot.kucoin.com/?token=abc123");
    let normalised = credentials("WSS://WS-API-SPOT.kucoin.com");
    assert_eq!(websocket_url(&normalised).unwrap(), "wss://ws-api-spot.kucoin.com/?token=abc123");
}

#[test]
fn websocket_url_refuses_a_relative_endpoint() {
    assert!(websocket_url(&credentials("no scheme")).is_err());
}

#[test]
fn ticker_subscription_request() {
    assert_eq!(
        ticker_subscription("ETH-USDT", 12),
        "{\"id\":12, \"type\":\"subscribe\",\"topic\":\"/market/ticker:ETH-USDT\", \"response\":true}"
    );
    assert_eq!(
        ticker_subscription("BTC-USDT", 255),
        "{\"id\":255, \"type\":\"subscribe\",\"topic\":\"/market/ticker:BTC-USDT\", \"response\":true}"
    );
    assert!(ticker_subscription("X", 0).starts_with("{\"id\":0,"));
}

#[test]
fn listings_file_name() {
    assert_eq!(listings_file(), "./listings.json");
}
