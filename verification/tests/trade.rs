use kucoin_trade::signing::sign_message;
use kucoin_trade::trade::{listings_path, Kucoin, TradeType};
use kucoin_trade::Kucoin::config::Config;

fn client(key: &str) -> Kucoin {
    Kucoin::new(
        key.to_string(),
        "secret".to_string(),
        "passphrase".to_string(),
        "https://api.kucoin.com".to_string(),
    )
}

#[test]
fn endpoint_signatures_at_a_fixed_time() {
    let (trade, balance) = Kucoin::endpoint_signatures_at(&"secret".to_string(), 1700000000000);
    assert_eq!(trade, "+LpKyuRuMf0YvhRddwPv3Lexp5t8iWTgwLvV6WpGuaM=");
    assert_eq!(balance, "ka2jGwVPj+HJ5t7L4fEM4HttekAXENIQpmo8ulfZmV8=");
}

#[test]
fn endpoint_signatures_share_one_timestamp() {
    let secret = "secret".to_string();
    let (trade, balance) = Kucoin::generate_endpoint_signatures(&secret);
    let now = chrono::Utc::now().timestamp_millis();
    let found = (now - 60_000..=now).any(|t| {
        sign_message("secret", &format!("{}GET/api/v1/orders", t)) == trade
            && sign_message("secret", &format!("{}GET/api/v1/accounts", t)) == balance
    });
    assert!(found);
}

#[test]
fn headers_carry_the_precomputed_signatures() {
    let client = client("my-key");
    let trade = client.create_headers_at(TradeType::Trade, 7).unwrap();
    let balance = client.create_headers_at(TradeType::Balance, 7).unwrap();
    assert_ne!(trade.sign, balance.sign);
    assert_eq!(trade.timestamp, "7");
    assert_eq!(trade.api_key, "my-key");
    assert_eq!(trade.passphrase, "sWd5rQWAxDzYJTY6K2sov6seA0l3uNP70anWxITg8IA=");
    assert_eq!(trade.key_version, "2");
    let later = client.create_headers(TradeType::Trade).unwrap();
    assert_eq!(later.sign, trade.sign);
    assert!(later.timestamp.chars().all(|c| c.is_ascii_digit()));
    assert_eq!(
        Kucoin::generate_encrypted_passphrase(&"secret".to_string(), &"passphrase".to_string()),
        trade.passphrase
    );
}

#[test]
fn invalid_api_key_is_detected() {
    assert!(!client("a\rb").has_valid_api_key());
    assert!(client("ab").has_valid_api_key());
}

#[test]
fn endpoint_signatures_are_signature_texts() {
    let (trade, balance) = Kucoin::generate_endpoint_signatures(&"s".to_string());
    for text in [trade, balance] {
        assert_eq!(text.len(), 44);
        assert!(text.ends_with('='));
        assert!(!text[..43].contains('='));
    }
}

#[test]
fn accounts_url_of_trade_client() {
    assert_eq!(client("k").accounts_url(), "https://api.kucoin.com/api/v1/accounts");
}

#[test]
fn listings_path_follows_test_mode() {
    let mut config = Config {
        test: true,
        kucoin_key: String::new(),
        kucoin_secret: String::new(),
        kucoin_passphrase: String::new(),
        base_url: String::new(),
    };
    assert_eq!(listings_path(&config), "./listings_test.json");
    config.test = false;
    assert_eq!(listings_path(&config), "./listings.json");
}

#[test]
fn both_clients_sign_the_balance_endpoint_alike() {
    let (_, balance) = Kucoin::endpoint_signatures_at(&"secret".to_string(), 1234567);
    let config = Config {
        test: false,
        kucoin_key: "k".to_string(),
        kucoin_secret: "secret".to_string(),
        kucoin_passphrase: "passphrase".to_string(),
        base_url: String::new(),
    };
    let other = kucoin_trade::Kucoin::kucoin_client::Kucoin::new(&config);
    let headers = other
        .create_headers_at(&kucoin_trade::Kucoin::kucoin_client::TradeType::Balance, "", 1234567)
        .unwrap();
    assert_eq!(headers.sign, balance);
}
