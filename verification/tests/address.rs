use bitcoin::bech32::{self, Bech32m, Hrp};
use bitcoin::hashes::sha256;
use breez_sdk_spark::spark::address::hash::get_magic_network_identifier;
use breez_sdk_spark::spark::address::{
    AddressError, AssetIdentifier, SatsPayment, SparkAddress,
    SparkAddressPaymentType, SparkInvoiceFields, TokensPayment,
};
use breez_sdk_spark::spark::crypto::{PublicKey, SecretKey};
use breez_sdk_spark::spark::messages::writing::encode_spark_address_canonical;
use breez_sdk_spark::spark::messages::{
    AddressMessage, InvoiceFieldsMessage, PaymentTypeMessage,
    SatsPaymentMessage, TimestampMessage, TokensPaymentMessage,
};
use breez_sdk_spark::spark::network::Network;
use breez_sdk_spark::spark::signer::DefaultSigner;
use breez_sdk_spark::spark::time::SystemTime;

const TOKEN: &str = "btknrt15xy2yxnpacs2yl00fnajxylsljq9y0uesr6qylyxq2lxnum8r63qfues7q";

fn create_test_signer() -> DefaultSigner {
    let test_seed = [42u8; 32];
    DefaultSigner::new(&test_seed, Network::Regtest).expect("Failed to create test signer")
}

fn create_test_public_key() -> PublicKey {
    SecretKey::generate().public_key()
}

fn key(hex_text: &str) -> PublicKey {
    PublicKey::from_slice(&hex::decode(hex_text).unwrap()).unwrap()
}

fn parse(s: &str) -> Result<SparkAddress, AddressError> {
    SparkAddress::checked_from_str(s).expect("a time that a clock can show")
}

fn now() -> SystemTime {
    SystemTime::new(1_761_061_260, 169_000_000).unwrap()
}

fn tokens(id: Option<&str>, amount: Option<u128>) -> Option<SparkAddressPaymentType> {
    Some(SparkAddressPaymentType::TokensPayment(TokensPayment {
        token_identifier: id.map(|s| s.to_string()),
        amount,
    }))
}

fn sats(amount: Option<u64>) -> Option<SparkAddressPaymentType> {
    Some(SparkAddressPaymentType::SatsPayment(SatsPayment { amount }))
}

fn fields(payment_type: Option<SparkAddressPaymentType>) -> SparkInvoiceFields {
    SparkInvoiceFields {
        id: [7; 16],
        version: 1,
        memo: None,
        sender_public_key: None,
        expiry_time: None,
        payment_type,
    }
}

fn roundtrip(network: Network, prefix: &str) {
    let original_address = SparkAddress::new(create_test_public_key(), network, None);
    let address_string = original_address.to_address_string().unwrap();
    assert!(address_string.starts_with(prefix));
    let parsed_address = parse(&address_string).unwrap();
    assert_eq!(parsed_address, original_address);
    assert_eq!(parse(&address_string.to_uppercase()).unwrap(), original_address);
}

#[test]
fn test_address_roundtrip() {
    roundtrip(Network::Mainnet, "spark1");
}

#[test]
fn test_address_roundtrip_testnet() {
    roundtrip(Network::Testnet, "sparkt1");
}

#[test]
fn test_address_roundtrip_regtest() {
    roundtrip(Network::Regtest, "sparkrt1");
}

#[test]
fn test_address_roundtrip_local() {
    roundtrip(Network::Local, "sparkl1");
}

#[test]
fn test_address_roundtrip_signet() {
    roundtrip(Network::Signet, "sparks1");
}

#[test]
fn test_parse_specific_regtest_address() {
    let address_str = "sparkrt1pgssyuuuhnrrdjswal5c3s3rafw9w3y5dd4cjy3duxlf7hjzkp0rqx6dc0nltx";
    let address = parse(address_str).unwrap();
    assert_eq!(address.network, Network::Regtest);
    assert_eq!(
        address.identity_public_key,
        key("02739cbcc636ca0eefe988c223ea5c5744946b6b89122de1be9f5e42b05e301b4d")
    );
    assert_eq!(address.to_address_string().unwrap(), address_str);
}

#[test]
fn test_parse_specific_legacy_regtest_address() {
    let address_str = "sprt1pgssyuuuhnrrdjswal5c3s3rafw9w3y5dd4cjy3duxlf7hjzkp0rqx6dj6mrhu";
    let address = parse(address_str).unwrap();
    assert_eq!(address.network, Network::Regtest);
    assert_eq!(
        address.identity_public_key,
        key("02739cbcc636ca0eefe988c223ea5c5744946b6b89122de1be9f5e42b05e301b4d")
    );
}

const SATS_INVOICE: &str = "sparkrt1pgss8cf4gru7ece2ryn8ym3vm3yz8leeend2589m7svq2mgv0xncfyx8zf8ssqgjzqqe5pmwfwyh9u4u6wgrepzk7j6j5prdv4kk7v3pqdur4y4c5nlcyr7lksm4mhrhdzakas9yt8gz4levtnfe49sgkqknywstpzxd8hk8qcgvp7x22q3qxz8gqudyp7rmuglc2axjqnlzz7d047gndmxff6ud02fvdgasdsq2en2aah6g52rq4qq7peler4s4d85s7prhm6sqzqj7gvc9nlzucy4yfh206fyqpk9zez";

const TOKEN_INVOICE: &str = "sparkrt1pgss8cf4gru7ece2ryn8ym3vm3yz8leeend2589m7svq2mgv0xncfyx8zfeqsqgjzqqe5pmtue38y3avl89vac53nkzj5prdv4kk7v3pqdur4y4c5nlcyr7lksm4mhrhdzakas9yt8gz4levtnfe49sgkqknywstprharhk8qcgvpz8vtudzvz3q5xy2yxnpacs2yl00fnajxylsljq9y0uesr6qylyxq2lxnum8r63pyqsraqdyp57uf363avdlv59eqjfdszpwc2y3zfpww2cevcx92zw40qxf5fedvrlmnrmsg7pa3egggtw03kd0rz73lvgl5u3c02krhhcwc3haec4q2e582x";

#[test]
fn test_parse_specific_sats_invoice() {
    let invoice = parse(SATS_INVOICE).unwrap();
    assert_eq!(invoice.network, Network::Regtest);
    let invoice_fields = invoice.spark_invoice_fields.unwrap();
    assert_eq!(invoice_fields.payment_type, sats(Some(1000)));
    assert_eq!(invoice_fields.expiry_time.unwrap().secs_since_epoch(), 1761061260);
    assert_eq!(invoice_fields.expiry_time.unwrap().nanos_since_epoch(), 169_000_000);
    assert_eq!(invoice_fields.memo, Some("memo".to_string()));
    assert_eq!(
        invoice_fields.sender_public_key,
        Some(key("03783a92b8a4ff820fdfb4375ddc7768bb6ec0a459d02aff2c5cd39a9608b02d32"))
    );
}

#[test]
fn test_parse_specific_token_invoice() {
    let invoice = parse(TOKEN_INVOICE).unwrap();
    assert_eq!(invoice.network, Network::Regtest);
    let invoice_fields = invoice.spark_invoice_fields.unwrap();
    assert_eq!(invoice_fields.payment_type, tokens(Some(TOKEN), Some(1000)));
    assert_eq!(invoice_fields.expiry_time.unwrap().secs_since_epoch(), 1761061103);
    assert_eq!(invoice_fields.memo, Some("memo".to_string()));
    assert_eq!(
        invoice_fields.sender_public_key,
        Some(key("03783a92b8a4ff820fdfb4375ddc7768bb6ec0a459d02aff2c5cd39a9608b02d32"))
    );
}

#[test]
fn known_invoices_are_written_canonically() {
    for text in [SATS_INVOICE, TOKEN_INVOICE] {
        let (_, payload) = bech32::decode(text).unwrap();
        let message = AddressMessage::decode(&payload).unwrap();
        let signature = message.signature.unwrap();
        let invoice = parse(text).unwrap();
        let written = invoice.invoice_string_with_signature(&signature).unwrap();
        assert_eq!(written, text);
    }
}

#[test]
fn test_invalid_bech32_address() {
    match parse("invalid-address") {
        Err(AddressError::InvalidBech32mAddress(text)) => assert_eq!(text, "invalid-address"),
        _ => panic!("Expected InvalidBech32mAddress error"),
    }
}

fn message(key: &PublicKey) -> AddressMessage {
    AddressMessage {
        identity_public_key: key.serialize(),
        spark_invoice_fields: None,
        signature: None,
    }
}

fn text_of(hrp: &str, message: &AddressMessage) -> String {
    let payload = encode_spark_address_canonical(message);
    bech32::encode::<Bech32m>(Hrp::parse(hrp).unwrap(), &payload).unwrap()
}

#[test]
fn test_unknown_hrp_address() {
    let address = text_of("sparkx", &message(&create_test_public_key()));
    match parse(&address) {
        Err(AddressError::UnknownHrp(hrp)) => assert_eq!(hrp, "sparkx"),
        _ => panic!("Expected UnknownHrp error"),
    }
    match parse(&address.to_uppercase()) {
        Err(AddressError::UnknownHrp(hrp)) => assert_eq!(hrp, "SPARKX"),
        _ => panic!("Expected UnknownHrp error"),
    }
}

#[test]
fn legacy_prefixes_keep_their_networks() {
    let public_key = create_test_public_key();
    for (hrp, network) in [
        ("sp", Network::Mainnet),
        ("spt", Network::Testnet),
        ("sprt", Network::Regtest),
        ("spl", Network::Local),
        ("sps", Network::Signet),
    ] {
        let address = parse(&text_of(hrp, &message(&public_key))).unwrap();
        assert_eq!(address.network, network);
        assert_eq!(address.identity_public_key, public_key);
    }
}

fn signed_roundtrip(network: Network, fields: SparkInvoiceFields) -> SparkAddress {
    let signer = create_test_signer();
    let public_key = signer.get_identity_public_key().unwrap();
    let original = SparkAddress::new(public_key, network, Some(fields));
    let text = original.to_invoice_string(&signer).unwrap();
    let parsed = parse(&text).unwrap();
    assert_eq!(parsed, original);
    parsed
}

#[test]
fn test_invoice_roundtrip() {
    let mut f = fields(tokens(Some(TOKEN), Some(100)));
    f.sender_public_key = Some(create_test_public_key());
    f.expiry_time = Some(now());
    f.memo = Some("Test payment".to_string());
    let parsed = signed_roundtrip(Network::Regtest, f);
    assert!(parsed.is_invoice());
}

#[test]
fn test_invoice_minimal_data() {
    let parsed = signed_roundtrip(Network::Testnet, fields(sats(Some(500))));
    let f = parsed.spark_invoice_fields.unwrap();
    assert_eq!(f.payment_type, sats(Some(500)));
    assert_eq!(f.memo, None);
}

#[test]
fn edge_amounts_survive() {
    for payment in [
        sats(None),
        sats(Some(0)),
        sats(Some(u64::MAX)),
        tokens(None, None),
        tokens(None, Some(0)),
        tokens(None, Some(u128::MAX)),
        tokens(Some(TOKEN), None),
    ] {
        signed_roundtrip(Network::Regtest, fields(payment));
    }
}

#[test]
fn test_compare_addresses_with_and_without_invoice_fields() {
    let signer = create_test_signer();
    let public_key = signer.get_identity_public_key().unwrap();
    let without = SparkAddress::new(public_key.clone(), Network::Mainnet, None);
    let string_without_intent = without.to_address_string().unwrap();
    let mut f = fields(tokens(Some(TOKEN), Some(100)));
    f.sender_public_key = Some(create_test_public_key());
    f.expiry_time = Some(now());
    f.memo = Some("Test memo".to_string());
    let with = SparkAddress::new(public_key, Network::Mainnet, Some(f));
    let string_with_intent = with.to_invoice_string(&signer).unwrap();
    assert_ne!(string_without_intent, string_with_intent);
    let parsed_without_intent = parse(&string_without_intent).unwrap();
    let parsed_with_intent = parse(&string_with_intent).unwrap();
    assert_eq!(
        parsed_without_intent.identity_public_key,
        parsed_with_intent.identity_public_key
    );
    assert_eq!(parsed_without_intent.network, parsed_with_intent.network);
    assert!(parsed_without_intent.spark_invoice_fields.is_none());
    // The identifier is written anew for the network that the invoice is for.
    let payment = parsed_with_intent.spark_invoice_fields.unwrap().payment_type.unwrap();
    match payment {
        SparkAddressPaymentType::TokensPayment(t) => {
            assert!(t.token_identifier.unwrap().starts_with("btkn1"));
        }
        _ => panic!("Expected TokensPayment"),
    }
}

fn invoice_message(id: Vec<u8>) -> InvoiceFieldsMessage {
    InvoiceFieldsMessage {
        version: 1,
        id,
        payment_type: Some(PaymentTypeMessage::Tokens(TokensPaymentMessage {
            token_identifier: None,
            amount: Some(1000u128.to_be_bytes().to_vec()),
        })),
        memo: Some("Test".to_string()),
        sender_public_key: None,
        expiry_time: None,
    }
}

fn parse_invoice_message(f: InvoiceFieldsMessage, signature: Option<Vec<u8>>) -> AddressError {
    let m = AddressMessage {
        identity_public_key: create_test_public_key().serialize(),
        spark_invoice_fields: Some(f),
        signature,
    };
    match parse(&text_of("sp", &m)) {
        Err(e) => e,
        Ok(_) => panic!("Expected an error"),
    }
}

#[test]
fn test_invalid_invoice_fields_data() {
    match parse_invoice_message(invoice_message(vec![1, 2, 3]), None) {
        AddressError::InvalidPaymentIntent(e) => assert_eq!(e, "Invalid UUID length"),
        e => panic!("{e:?}"),
    }
}

#[test]
fn each_broken_field_has_its_error() {
    let mut f = invoice_message(vec![0; 16]);
    f.sender_public_key = Some(vec![1; 33]);
    match parse_invoice_message(f, None) {
        AddressError::InvalidPublicKey(e) => assert_eq!(e, "malformed public key"),
        e => panic!("{e:?}"),
    }
    let mut f = invoice_message(vec![0; 16]);
    f.payment_type = Some(PaymentTypeMessage::Tokens(TokensPaymentMessage {
        token_identifier: None,
        amount: Some(vec![1; 17]),
    }));
    match parse_invoice_message(f, None) {
        AddressError::InvalidPaymentIntent(e) => {
            assert_eq!(
                e,
                "Invalid payment type: Invalid payment intent: Invalid amount: more than 16 bytes"
            );
        }
        e => panic!("{e:?}"),
    }
    match parse_invoice_message(invoice_message(vec![0; 16]), Some(vec![1; 63])) {
        AddressError::InvalidSignature(e) => assert_eq!(e, "malformed signature"),
        e => panic!("{e:?}"),
    }
    match parse_invoice_message(invoice_message(vec![0; 16]), None) {
        AddressError::Other(e) => assert_eq!(e, "Invoice has no signature"),
        e => panic!("{e:?}"),
    }
    match parse_invoice_message(invoice_message(vec![0; 16]), Some(vec![1; 64])) {
        AddressError::Other(e) => assert_eq!(e, "Invalid invoice signature"),
        e => panic!("{e:?}"),
    }
    let mut f = invoice_message(vec![0; 16]);
    f.version = 2;
    match parse_invoice_message(f, Some(vec![1; 64])) {
        AddressError::Other(e) => assert_eq!(e, "Unsupported invoice version"),
        e => panic!("{e:?}"),
    }
    let mut f = invoice_message(vec![0; 16]);
    f.payment_type = None;
    match parse_invoice_message(f, Some(vec![1; 64])) {
        AddressError::Other(e) => assert_eq!(e, "No payment type"),
        e => panic!("{e:?}"),
    }
    let mut m = message(&create_test_public_key());
    m.identity_public_key = vec![5; 33];
    match parse(&text_of("sp", &m)) {
        Err(AddressError::InvalidPublicKey(e)) => assert_eq!(e, "malformed public key"),
        e => panic!("{e:?}"),
    }
    let garbage = bech32::encode::<Bech32m>(Hrp::parse("sp").unwrap(), &[0xff]).unwrap();
    match parse(&garbage) {
        Err(AddressError::ProtobufDecodeError(e)) => {
            assert_eq!(e, "failed to decode Protobuf message: invalid varint");
        }
        e => panic!("{e:?}"),
    }
}

#[test]
fn times_beyond_a_clock_give_nothing() {
    for (seconds, nanos, readable) in
        [(-1, 0, false), (i64::MAX, 0, true), (i64::MAX, -1, false), (0, -1, true)]
    {
        let mut f = invoice_message(vec![0; 16]);
        f.expiry_time = Some(TimestampMessage { seconds, nanos });
        let m = AddressMessage {
            identity_public_key: create_test_public_key().serialize(),
            spark_invoice_fields: Some(f),
            signature: None,
        };
        assert_eq!(SparkAddress::checked_from_str(&text_of("sp", &m)).is_some(), readable);
    }
    // An unsigned reading of minus one nanosecond.
    let mut f = invoice_message(vec![0; 16]);
    f.expiry_time = Some(TimestampMessage { seconds: 3, nanos: -1 });
    let f = SparkInvoiceFields::from_message(f, Network::Mainnet).unwrap().unwrap();
    let t = f.expiry_time.unwrap();
    assert_eq!(t.secs_since_epoch(), 3 + u64::MAX / 1_000_000_000);
    assert_eq!(u64::from(t.nanos_since_epoch()), u64::MAX % 1_000_000_000);
}

#[test]
fn addresses_and_invoices_are_written_differently() {
    let signer = create_test_signer();
    let public_key = signer.get_identity_public_key().unwrap();
    let plain = SparkAddress::new(public_key.clone(), Network::Mainnet, None);
    match plain.to_invoice_string(&signer) {
        Err(AddressError::Other(e)) => {
            assert_eq!(e, "Non-invoice addresses cannot be converted to invoice strings");
        }
        _ => panic!("Expected an error"),
    }
    let invoice = SparkAddress::new(public_key, Network::Mainnet, Some(fields(sats(None))));
    match invoice.to_address_string() {
        Err(AddressError::Other(e)) => {
            assert_eq!(e, "Invoice addresses cannot be converted to address strings");
        }
        _ => panic!("Expected an error"),
    }
}

#[test]
fn only_the_issuer_signs() {
    let signer = create_test_signer();
    let invoice =
        SparkAddress::new(create_test_public_key(), Network::Mainnet, Some(fields(sats(None))));
    match invoice.to_invoice_string(&signer) {
        Err(AddressError::Other(e)) => {
            assert_eq!(e, "Cannot sign invoice for a different identity");
        }
        _ => panic!("Expected an error"),
    }
    match invoice.digest_to_sign(&Err("offline".to_string())) {
        Err(AddressError::Other(e)) => {
            assert_eq!(e, "Failed to get identity public key: offline");
        }
        _ => panic!("Expected an error"),
    }
    assert_eq!(
        SparkAddress::signing_failure("refused").to_string(),
        "Failed to sign invoice hash: refused"
    );
}

#[test]
fn unreadable_token_identifiers_are_refused() {
    let signer = create_test_signer();
    let public_key = signer.get_identity_public_key().unwrap();
    let invoice =
        SparkAddress::new(public_key, Network::Mainnet, Some(fields(tokens(Some("nope"), None))));
    match invoice.to_invoice_string(&signer) {
        Err(AddressError::Bech32mDecodeError(e)) => {
            assert!(e.starts_with("Invalid token identifier: "));
        }
        _ => panic!("Expected an error"),
    }
    match invoice.compute_invoice_hash() {
        Err(AddressError::Other(e)) => assert!(e.starts_with("Invalid token identifier: ")),
        _ => panic!("Expected an error"),
    }
}

#[test]
fn long_invoices_have_no_text() {
    let signer = create_test_signer();
    let public_key = signer.get_identity_public_key().unwrap();
    let mut longest = 0;
    for n in [400, 450, 460, 470, 480, 490, 500, 600, 2000] {
        let mut f = fields(sats(Some(1)));
        f.memo = Some("m".repeat(n));
        let invoice = SparkAddress::new(public_key.clone(), Network::Mainnet, Some(f));
        assert!(invoice.check_invoice().is_ok());
        match invoice.to_invoice_string(&signer) {
            Ok(text) => {
                assert!(text.starts_with("spark1") && text.len() <= 1023);
                longest = n;
            }
            Err(AddressError::Bech32EncodeError(e)) => {
                assert!(n > longest);
                let hrp = Hrp::parse("spark").unwrap();
                let outside = bech32::encode::<Bech32m>(hrp, &vec![0; 1000]).unwrap_err();
                assert_eq!(e, outside.to_string());
            }
            Err(_) => panic!("Expected an encoding error"),
        }
    }
    assert!(longest >= 450 && longest < 600);
}

#[test]
fn invoice_hashes_cover_what_they_should() {
    let public_key = key("02739cbcc636ca0eefe988c223ea5c5744946b6b89122de1be9f5e42b05e301b4d");
    let hash = |network: Network, f: SparkInvoiceFields| {
        SparkAddress::new(public_key.clone(), network, Some(f)).compute_invoice_hash().unwrap()
    };
    let base = hash(Network::Regtest, fields(sats(Some(1))));
    assert_eq!(base.len(), 32);
    assert_eq!(base, hash(Network::Local, fields(sats(Some(1)))));
    assert_ne!(base, hash(Network::Mainnet, fields(sats(Some(1)))));
    assert_ne!(base, hash(Network::Regtest, fields(sats(Some(2)))));
    assert_eq!(hash(Network::Regtest, fields(sats(Some(0)))), hash(Network::Regtest, fields(sats(None))));
    assert_eq!(
        hash(Network::Regtest, fields(tokens(None, Some(0)))),
        hash(Network::Regtest, fields(tokens(None, None)))
    );
    let mut empty_memo = fields(sats(Some(1)));
    empty_memo.memo = Some(String::new());
    assert_eq!(base, hash(Network::Regtest, empty_memo));
    let mut before = fields(sats(Some(1)));
    before.expiry_time = Some(SystemTime::new(-5, 1).unwrap());
    assert_eq!(base, hash(Network::Regtest, before));
    let mut early = fields(sats(Some(1)));
    early.expiry_time = Some(SystemTime::new(5, 1).unwrap());
    let mut late = fields(sats(Some(1)));
    late.expiry_time = Some(SystemTime::new(5, 999).unwrap());
    assert_eq!(hash(Network::Regtest, early), hash(Network::Regtest, late));
    // An expected value, put together by hand.
    let h = |b: &[u8]| {
        let digest = <sha256::Hash as bitcoin::hashes::Hash>::hash(b);
        bitcoin::hashes::Hash::to_byte_array(digest).to_vec()
    };
    let mut all: Vec<u8> = Vec::new();
    all.extend(h(&1u32.to_be_bytes()));
    all.extend(h(&[7; 16]));
    all.extend(h(&h(&[0xda, 0xb5, 0xbf, 0xfa])));
    all.extend(h(&public_key.serialize()));
    all.extend(h(&[2]));
    all.extend(h(&1u64.to_be_bytes()));
    all.extend(h(&[]));
    all.extend(h(&[0; 33]));
    all.extend(h(&0u64.to_be_bytes()));
    assert_eq!(base, h(&all));
    match SparkAddress::new(public_key.clone(), Network::Mainnet, None).compute_invoice_hash() {
        Err(AddressError::Other(e)) => assert_eq!(e, "No invoice fields"),
        _ => panic!("Expected an error"),
    }
}

#[test]
fn magic_identifiers_are_four_bytes() {
    assert_eq!(get_magic_network_identifier(Network::Mainnet), vec![0xd9, 0xb4, 0xbe, 0xf9]);
    assert_eq!(get_magic_network_identifier(Network::Testnet), vec![0x07, 0x09, 0x11, 0x0b]);
    assert_eq!(get_magic_network_identifier(Network::Signet), vec![0x40, 0xcf, 0x03, 0x0a]);
    assert_eq!(get_magic_network_identifier(Network::Regtest), vec![0xda, 0xb5, 0xbf, 0xfa]);
    assert_eq!(get_magic_network_identifier(Network::Local), vec![0xda, 0xb5, 0xbf, 0xfa]);
}

#[test]
fn asset_identifiers_are_hexadecimal() {
    let a = AssetIdentifier::from_str("00Ff10aB").unwrap();
    assert_eq!(a.to_string(), "00ff10ab");
    assert_eq!(AssetIdentifier::from_str(&a.to_string()).unwrap(), a);
    for text in ["0", "0g", "\u{e9}\u{e9}"] {
        match AssetIdentifier::from_str(text) {
            Err(AddressError::InvalidPaymentIntent(e)) => assert_eq!(e, "Invalid asset identifier"),
            _ => panic!("Expected an error"),
        }
    }
}

#[test]
fn sats_messages_hold_the_amount() {
    let p = SparkAddressPaymentType::SatsPayment(SatsPayment { amount: Some(3) });
    match p.to_message().unwrap() {
        PaymentTypeMessage::Sats(m) => assert_eq!(m, SatsPaymentMessage { amount: Some(3) }),
        _ => panic!("Expected sats"),
    }
}

#[test]
fn times_before_the_epoch_are_written_as_the_epoch() {
    let mut f = fields(sats(None));
    f.expiry_time = Some(SystemTime::new(-5, 3).unwrap());
    let m = f.to_message().unwrap();
    assert_eq!(m.expiry_time, Some(TimestampMessage { seconds: 0, nanos: 0 }));
}
