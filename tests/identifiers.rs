use relay::alchemy::get_ws;
use relay::chain::Chain;
use relay::primitives::{RequestId, TxHash};
use relay::relay::{is_supported_chain, RelayError};

fn sample_hash() -> TxHash {
    let mut bytes = [0u8; 32];
    for (i, b) in bytes.iter_mut().enumerate() {
        *b = (i as u8) * 8 + 1;
    }
    TxHash::new(bytes)
}

#[test]
fn hash_text_is_lowercase_prefixed_hex() {
    let h = TxHash::new([0xabu8; 32]);
    let text = h.to_text();
    assert_eq!(text.len(), 66);
    assert_eq!(text, format!("0x{}", "ab".repeat(32)));
    let z = TxHash::new([0u8; 32]);
    assert_eq!(z.to_text(), format!("0x{}", "0".repeat(64)));
}

#[test]
fn hash_text_round_trip() {
    let h = sample_hash();
    let back = TxHash::from_text(&h.to_text()).unwrap();
    assert_eq!(back, h);
    assert_eq!(
        h.to_text(),
        "0x0109111921293139414951596169717981899199a1a9b1b9c1c9d1d9e1e9f1f9"
    );
}

#[test]
fn hash_text_accepts_uppercase_digits() {
    let upper = format!("0x{}", "AB".repeat(32));
    assert_eq!(TxHash::from_text(&upper), Some(TxHash::new([0xab; 32])));
}

#[test]
fn hash_text_rejects_malformed() {
    assert_eq!(TxHash::from_text(""), None);
    assert_eq!(TxHash::from_text(&"ab".repeat(33)), None);
    assert_eq!(TxHash::from_text(&format!("0x{}", "a".repeat(63))), None);
    assert_eq!(TxHash::from_text(&format!("0x{}", "a".repeat(65))), None);
    assert_eq!(TxHash::from_text(&format!("0x{}g", "a".repeat(63))), None);
    assert_eq!(TxHash::from_text(&format!("1x{}", "a".repeat(64))), None);
}

#[test]
fn hash_equality_compares_all_bytes() {
    let a = sample_hash();
    let mut bytes = a.bytes;
    bytes[31] ^= 1;
    assert_ne!(a, TxHash::new(bytes));
    assert_eq!(a, TxHash::new(a.bytes));
}

#[test]
fn request_id_text_is_hyphenated_uuid() {
    let id = RequestId::from_u128(0x0123456789abcdef0123456789abcdef);
    assert_eq!(id.to_text(), "01234567-89ab-cdef-0123-456789abcdef");
    assert_eq!(RequestId::parse(&id.to_text()), Some(id));
}

#[test]
fn request_id_parse_rejects_garbage() {
    assert_eq!(RequestId::parse("not-a-uuid"), None);
    assert_eq!(RequestId::parse(""), None);
}

#[test]
fn fresh_request_ids_differ() {
    let a = RequestId::new_v4();
    let b = RequestId::new_v4();
    assert_ne!(a, b);
    assert_eq!(RequestId::parse(&a.to_text()), Some(a));
}

#[test]
fn chain_ids_round_trip() {
    let all = [
        (Chain::Mainnet, 1u32),
        (Chain::Goerli, 5),
        (Chain::Sepolia, 11155111),
        (Chain::Polygon, 137),
        (Chain::PolygonMumbai, 80001),
        (Chain::AnvilHardhat, 31337),
    ];
    for (c, n) in all {
        assert_eq!(c.id(), n);
        assert_eq!(Chain::from_id(n), Some(c));
    }
    assert_eq!(Chain::from_id(0), None);
    assert_eq!(Chain::from_id(42), None);
}

#[test]
fn supported_chains_are_goerli_and_sepolia() {
    assert!(is_supported_chain(Chain::Goerli));
    assert!(is_supported_chain(Chain::Sepolia));
    assert!(!is_supported_chain(Chain::Mainnet));
    assert!(!is_supported_chain(Chain::AnvilHardhat));
}

#[test]
fn error_status_codes() {
    assert_eq!(RelayError::UnsupportedChain.status_code(), 400);
    assert_eq!(RelayError::NotFound.status_code(), 404);
    assert_eq!(RelayError::AlreadyRegistered.status_code(), 500);
    assert_eq!(RelayError::Internal.status_code(), 500);
}

#[test]
fn websocket_urls() {
    assert_eq!(get_ws(Chain::Goerli, "KEY"), "wss://eth-goerli.g.alchemy.com/v2/KEY");
    assert_eq!(get_ws(Chain::Sepolia, "k"), "wss://eth-sepolia.g.alchemy.com/v2/k");
    assert_eq!(get_ws(Chain::Mainnet, ""), "wss://eth-mainnet.g.alchemy.com/v2/");
    assert_eq!(get_ws(Chain::Polygon, "x"), "wss://polygon-mainnet.g.alchemy.com/v2/x");
    assert_eq!(get_ws(Chain::PolygonMumbai, "y"), "wss://polygon-mumbai.g.alchemy.com/v2/y");
}
