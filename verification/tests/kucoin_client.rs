use kucoin_trade::signing::sign_message;
use kucoin_trade::Kucoin::config::Config;
use kucoin_trade::Kucoin::kucoin_client::{
    is_single_amount, limit_order_terms, market_order_params, market_order_result, usdt_pair, ErrorResponse, Kucoin,
    MarketOrderResponseSuccess, OrderType, TradeType,
};
use std::collections::HashMap;

fn config(key: &str) -> Config {
    Config {
        test: false,
        kucoin_key: key.to_string(),
        kucoin_secret: "secret".to_string(),
        kucoin_passphrase: "passphrase".to_string(),
        base_url: "https://api.kucoin.com".to_string(),
    }
}

fn is_uuid_v4(text: &str) -> bool {
    let chars: Vec<char> = text.chars().collect();
    chars.len() == 36
        && chars.iter().enumerate().all(|(i, c)| {
            if i == 8 || i == 13 || i == 18 || i == 23 {
                *c == '-'
            } else {
                c.is_ascii_digit() || ('a'..='f').contains(c)
            }
        })
        && chars[14] == '4'
        && "89ab".contains(chars[19])
}

#[test]
fn passphrase_is_signed_with_the_secret() {
    let encoded = Kucoin::generate_encrypted_passphrase(&"secret".to_string(), &"passphrase".to_string());
    assert_eq!(encoded, "sWd5rQWAxDzYJTY6K2sov6seA0l3uNP70anWxITg8IA=");
}

#[test]
fn new_client_has_no_wallet() {
    let client = Kucoin::new(&config("key"));
    assert!(client.wallet.is_none());
}

#[test]
fn balance_headers_at_a_fixed_time() {
    let client = Kucoin::new(&config("my-key"));
    let headers = client.create_headers_at(&TradeType::Balance, "", 1700000000000).unwrap();
    assert_eq!(headers.sign, "ka2jGwVPj+HJ5t7L4fEM4HttekAXENIQpmo8ulfZmV8=");
    assert_eq!(headers.timestamp, "1700000000000");
    assert_eq!(headers.api_key, "my-key");
    assert_eq!(headers.passphrase, "sWd5rQWAxDzYJTY6K2sov6seA0l3uNP70anWxITg8IA=");
    assert_eq!(headers.key_version, "2");
}

#[test]
fn order_headers_sign_the_body() {
    let client = Kucoin::new(&config("my-key"));
    let headers = client
        .create_headers_at(&TradeType::Trade(OrderType::Buy), "{\"a\":1}", 1700000000000)
        .unwrap();
    assert_eq!(headers.sign, "BjMIEonH8T7cjjoqZFb9cHJ6wjuuYMIeAKnbI7tsybc=");
}

#[test]
fn negative_timestamp_is_rendered_with_its_sign() {
    let client = Kucoin::new(&config("my-key"));
    let headers = client.create_headers_at(&TradeType::Balance, "", -5).unwrap();
    assert_eq!(headers.timestamp, "-5");
    assert_eq!(headers.sign, "XB3kOw0zZCfPcrpUYZ5/vG316lVPLvWxRqt8pGQl+ks=");
}

#[test]
fn headers_now_sign_their_own_timestamp() {
    let client = Kucoin::new(&config("my-key"));
    let headers = client.create_headers(TradeType::Balance, "").unwrap();
    assert!(!headers.timestamp.is_empty());
    assert!(headers.timestamp.chars().all(|c| c.is_ascii_digit()));
    let expected = sign_message("secret", &format!("{}GET/api/v1/accounts", headers.timestamp));
    assert_eq!(headers.sign, expected);
}

#[test]
fn api_key_validity_as_header_value() {
    assert!(!Kucoin::new(&config("bad\nkey")).has_valid_api_key());
    assert!(!Kucoin::new(&config("del\u{7f}")).has_valid_api_key());
    assert!(Kucoin::new(&config("my-key")).has_valid_api_key());
    let client = Kucoin::new(&config("ké\ty"));
    assert!(client.has_valid_api_key());
    assert!(client.create_headers_at(&TradeType::Balance, "", 1).is_ok());
}

#[test]
fn single_amount_check() {
    assert!(is_single_amount("1", ""));
    assert!(is_single_amount("", "2"));
    assert!(!is_single_amount("", ""));
    assert!(!is_single_amount("1", "2"));
}

#[test]
fn signatures_end_in_one_padding_character() {
    let client = Kucoin::new(&config("my-key"));
    let headers = client.create_headers_at(&TradeType::Trade(OrderType::Sell), "body", 99).unwrap();
    for text in [&headers.sign, &headers.passphrase] {
        assert_eq!(text.len(), 44);
        assert!(text.ends_with('='));
        assert!(!text[..43].contains('='));
    }
}

#[test]
fn endpoint_urls() {
    let client = Kucoin::new(&config("key"));
    assert_eq!(client.accounts_url(), "https://api.kucoin.com/api/v1/accounts");
    assert_eq!(client.orders_url(), "https://api.kucoin.com/api/v1/orders");
}

#[test]
fn order_sides_and_symbols() {
    assert_eq!(OrderType::Buy.side(), "buy");
    assert_eq!(OrderType::Sell.side(), "sell");
    assert_eq!(usdt_pair("ADA".to_string()), "ADA-USDT");
    assert_eq!(usdt_pair(String::new()), "-USDT");
}

#[test]
fn market_order_with_funds() {
    let params = market_order_params("ADA".to_string(), OrderType::Sell, "", "12.5", "oid".to_string());
    assert_eq!(params.client_oid, "oid");
    assert_eq!(params.side, "sell");
    assert_eq!(params.symbol, "ADA-USDT");
    assert_eq!(params.typ, "market");
    assert_eq!(params.trade_type, "TRADE");
    assert_eq!(params.funds, "12.5");
    assert_eq!(params.size, "");
}

#[test]
fn prepared_market_order_has_a_fresh_uuid() {
    let client = Kucoin::new(&config("key"));
    let first = client.prepare_market_order("ETH".to_string(), OrderType::Buy, "1", "");
    let second = client.prepare_market_order("ETH".to_string(), OrderType::Buy, "1", "");
    assert!(is_uuid_v4(&first.client_oid));
    assert!(is_uuid_v4(&second.client_oid));
    assert_ne!(first.client_oid, second.client_oid);
    assert_eq!(first.side, "buy");
    assert_eq!(first.symbol, "ETH-USDT");
    assert_eq!(first.size, "1");
    assert_eq!(first.funds, "");
}

#[test]
fn limit_order_terms_are_good_till_time() {
    let terms = limit_order_terms("ADA".to_string(), OrderType::Buy, Some(60), None, "oid".to_string());
    assert_eq!(terms.client_oid, "oid");
    assert_eq!(terms.side, "buy");
    assert_eq!(terms.symbol, "ADA-USDT");
    assert_eq!(terms.typ, "limit");
    assert_eq!(terms.trade_type, "TRADE");
    assert_eq!(terms.time_in_force.as_deref(), Some("GTT"));
    assert_eq!(terms.cancel_after, Some(60));
    assert_eq!(terms.post_only, None);
    let client = Kucoin::new(&config("key"));
    let prepared = client.prepare_limit_order("ADA".to_string(), OrderType::Sell, None, Some(true));
    assert!(is_uuid_v4(&prepared.client_oid));
    assert_eq!(prepared.post_only, Some(true));
}

#[test]
fn market_order_outcomes() {
    let mut data = HashMap::new();
    data.insert("orderId".to_string(), "42".to_string());
    let success = MarketOrderResponseSuccess { code: "200000".to_string(), data };
    let refusal = ErrorResponse { code: "400100".to_string(), msg: "bad".to_string() };
    match market_order_result(Some(success.clone()), Some(refusal.clone())) {
        Some(Ok(s)) => assert_eq!(s.data.get("orderId").map(String::as_str), Some("42")),
        _ => panic!("expected the accepted order"),
    }
    match market_order_result(None, Some(refusal)) {
        Some(Err(e)) => {
            assert_eq!(e.code, "400100");
            assert_eq!(e.msg, "bad");
        },
        _ => panic!("expected the refusal"),
    }
    assert!(market_order_result(None, None).is_none());
}
