use breez_sdk_spark::models::error::SdkError;
use breez_sdk_spark::models::fees::{
    CoopExitFeeQuote, CoopExitSpeedFeeQuote, ExitSpeed, WalletFee,
};
use breez_sdk_spark::models::lnurl::description_in;
use breez_sdk_spark::models::payment::conversion_steps_from_payments;
use breez_sdk_spark::models::types::{
    AmountAdjustmentReason, AssetFilter, BuyBitcoinRequest, Config, ConversionInfo,
    ConversionStatus, ConversionStep, ExternalInputParser, Fee, FeePolicy, KeySetConfig,
    KeySetType, LightningAddressInfo, LnurlInfo, LnurlPayInfo, MaxFee, Network,
    OnchainConfirmationSpeed, OptimizationConfig, Payment, PaymentDetails, PaymentMethod,
    PaymentStatus, PaymentType, RecoverLnurlPayResponse, Seed, SendOnchainFeeQuote,
    SendOnchainSpeedFeeQuote, SparkHtlcStatus, StableBalanceConfig, StableBalanceToken,
    TokenMetadata, TokenTransactionType,
};
use breez_sdk_spark::spark;

#[test]
fn payment_types_are_named() {
    for (t, name) in [(PaymentType::Send, "send"), (PaymentType::Receive, "receive")] {
        assert_eq!(t.to_string(), name);
        assert_eq!(PaymentType::from_str(name), Ok(t));
        assert_eq!(PaymentType::from_str(&name.to_uppercase()), Ok(t));
    }
    assert_eq!(PaymentType::from_str("Gift"), Err("invalid payment type 'Gift'".to_string()));
}

#[test]
fn payment_statuses_are_named() {
    for (t, name, is_final) in [
        (PaymentStatus::Completed, "completed", true),
        (PaymentStatus::Pending, "pending", false),
        (PaymentStatus::Failed, "failed", true),
    ] {
        assert_eq!(t.to_string(), name);
        assert_eq!(PaymentStatus::from_str(name), Ok(t));
        assert_eq!(PaymentStatus::from_str("PENDING"), Ok(PaymentStatus::Pending));
        assert_eq!(t.is_final(), is_final);
    }
    assert_eq!(PaymentStatus::from_str(""), Err("Invalid payment status ''".to_string()));
}

#[test]
fn payment_methods_are_named() {
    for (t, name) in [
        (PaymentMethod::Lightning, "lightning"),
        (PaymentMethod::Spark, "spark"),
        (PaymentMethod::Token, "token"),
        (PaymentMethod::Deposit, "deposit"),
        (PaymentMethod::Withdraw, "withdraw"),
        (PaymentMethod::Unknown, "unknown"),
    ] {
        assert_eq!(t.to_string(), name);
        assert_eq!(PaymentMethod::from_str(name), Ok(t));
    }
    assert_eq!(PaymentMethod::from_str("Spark"), Err(()));
}

#[test]
fn token_transactions_are_named() {
    for (t, name) in [
        (TokenTransactionType::Transfer, "transfer"),
        (TokenTransactionType::Mint, "mint"),
        (TokenTransactionType::Burn, "burn"),
    ] {
        assert_eq!(t.to_string(), name);
        assert_eq!(TokenTransactionType::from_str(&name.to_uppercase()), Ok(t));
    }
    assert_eq!(
        TokenTransactionType::from_str("x"),
        Err("Invalid token transaction type 'x'".to_string())
    );
}

#[test]
fn htlc_statuses_are_named() {
    for (t, name) in [
        (SparkHtlcStatus::WaitingForPreimage, "WaitingForPreimage"),
        (SparkHtlcStatus::PreimageShared, "PreimageShared"),
        (SparkHtlcStatus::Returned, "Returned"),
    ] {
        assert_eq!(t.to_string(), name);
        assert_eq!(SparkHtlcStatus::from_str(name), Ok(t));
    }
    assert_eq!(
        SparkHtlcStatus::from_str("returned"),
        Err("Invalid Spark HTLC status".to_string())
    );
}

#[test]
fn names_in_other_scripts_are_no_names() {
    // The Kelvin sign is a k in lower case, so that the name is one by Unicode.
    assert!(TokenTransactionType::from_str("TRAN\u{17f}FER").is_err());
    assert!(AssetFilter::from_str("TO\u{212a}EN").is_ok());
}

#[test]
fn asset_filters_are_read() {
    assert!(matches!(AssetFilter::from_str("Bitcoin"), Ok(AssetFilter::Bitcoin)));
    assert!(matches!(
        AssetFilter::from_str("TOKEN"),
        Ok(AssetFilter::Token { token_identifier: None })
    ));
    match AssetFilter::from_str("token:BTKN1:x") {
        Ok(AssetFilter::Token { token_identifier: Some(id) }) => assert_eq!(id, "btkn1:x"),
        _ => panic!("Expected a token"),
    }
    match AssetFilter::from_str("token:") {
        Ok(AssetFilter::Token { token_identifier: Some(id) }) => assert_eq!(id, ""),
        _ => panic!("Expected a token"),
    }
    for text in ["tokens", "", "bitcoin:"] {
        assert_eq!(
            AssetFilter::from_str(text).err(),
            Some(format!("Invalid asset filter '{text}'"))
        );
    }
}

#[test]
fn sdk_networks_are_named() {
    for (n, name, shown, on_spark) in [
        (Network::Mainnet, "mainnet", "Mainnet", spark::network::Network::Mainnet),
        (Network::Regtest, "regtest", "Regtest", spark::network::Network::Regtest),
        (Network::Local, "local", "Local", spark::network::Network::Local),
    ] {
        assert_eq!(Network::from_str(name), Ok(n));
        assert_eq!(n.to_string(), shown);
        assert_eq!(spark::network::Network::from(n), on_spark);
        assert_eq!(
            spark::network::BitcoinNetwork::from(n),
            spark::network::BitcoinNetwork::from(on_spark)
        );
    }
    assert_eq!(Network::from_str("testnet"), Err("Invalid network".to_string()));
}

fn metadata() -> TokenMetadata {
    TokenMetadata {
        identifier: "btkn1x".to_string(),
        issuer_public_key: "02".to_string(),
        name: "Coin".to_string(),
        ticker: "CN".to_string(),
        decimals: 6,
        max_supply: 7,
        is_freezable: true,
    }
}

fn info(fee: Option<u128>) -> Option<ConversionInfo> {
    Some(ConversionInfo {
        fee,
        status: ConversionStatus { name: "completed".to_string() },
        amount_adjustment: Some(AmountAdjustmentReason { name: "floored".to_string() }),
    })
}

fn payment(id: &str, payment_type: PaymentType, details: Option<PaymentDetails>) -> Payment {
    Payment {
        id: id.to_string(),
        payment_type,
        status: PaymentStatus::Completed,
        amount: 100,
        fees: 5,
        timestamp: 1,
        method: PaymentMethod::Token,
        details,
        conversion_details: None,
    }
}

fn spark_details(conversion_info: Option<ConversionInfo>) -> Option<PaymentDetails> {
    Some(PaymentDetails::Spark { invoice_details: None, htlc_details: None, conversion_info })
}

fn token_details(conversion_info: Option<ConversionInfo>) -> Option<PaymentDetails> {
    Some(PaymentDetails::Token {
        metadata: metadata(),
        tx_hash: "h".to_string(),
        tx_type: TokenTransactionType::Transfer,
        invoice_details: None,
        conversion_info,
    })
}

#[test]
fn conversion_children_are_told() {
    let is_child = |d| payment("p", PaymentType::Send, d).is_conversion_child();
    assert!(is_child(spark_details(info(None))));
    assert!(is_child(token_details(info(None))));
    assert!(!is_child(spark_details(None)));
    assert!(!is_child(token_details(None)));
    assert!(!is_child(Some(PaymentDetails::Deposit { tx_id: "t".to_string() })));
    assert!(!is_child(None));
}

#[test]
fn conversion_steps_are_found() {
    let payments = [
        payment("r1", PaymentType::Receive, token_details(info(Some(3)))),
        payment("s1", PaymentType::Send, spark_details(info(Some(u128::MAX)))),
        payment("s2", PaymentType::Send, spark_details(None)),
    ];
    let (from, to) = conversion_steps_from_payments(&payments).unwrap();
    let from = from.unwrap();
    assert_eq!(from.payment_id, "s1");
    assert_eq!(from.fee, u128::MAX);
    assert_eq!(from.token_metadata, None);
    assert_eq!(
        to,
        Some(ConversionStep {
            payment_id: "r1".to_string(),
            amount: 100,
            fee: 8,
            method: PaymentMethod::Token,
            token_metadata: Some(metadata()),
            amount_adjustment: Some(AmountAdjustmentReason { name: "floored".to_string() }),
        })
    );
    assert!(matches!(conversion_steps_from_payments(&[]), Ok((None, None))));
    let broken = [payment("s2", PaymentType::Send, spark_details(None))];
    match conversion_steps_from_payments(&broken) {
        Err(SdkError::Generic(e)) => {
            assert_eq!(e, "No conversion info available for payment s2");
        }
        _ => panic!("Expected an error"),
    }
    let broken = [payment("r2", PaymentType::Receive, None)];
    match conversion_steps_from_payments(&broken) {
        Err(SdkError::Generic(e)) => {
            assert_eq!(e, "No conversion info available for payment r2");
        }
        _ => panic!("Expected an error"),
    }
}

fn config(stable_balance_config: Option<StableBalanceConfig>) -> Config {
    Config {
        api_key: None,
        network: Network::Regtest,
        sync_interval_secs: 60,
        max_deposit_claim_fee: None,
        lnurl_domain: None,
        prefer_spark_over_lightning: false,
        external_input_parsers: None,
        use_default_external_input_parsers: true,
        real_time_sync_server_url: None,
        private_enabled_default: true,
        optimization_config: OptimizationConfig { auto_enabled: true, multiplicity: 1 },
        stable_balance_config,
        max_concurrent_claims: 4,
        spark_config: None,
    }
}

fn token(label: &str, id: &str) -> StableBalanceToken {
    StableBalanceToken { label: label.to_string(), token_identifier: id.to_string() }
}

fn stable(tokens: Vec<StableBalanceToken>) -> StableBalanceConfig {
    StableBalanceConfig {
        tokens,
        default_active_label: None,
        threshold_sats: None,
        max_slippage_bps: None,
    }
}

fn refusal(c: Config) -> Option<String> {
    match c.validate() {
        Ok(()) => None,
        Err(SdkError::InvalidInput(e)) => Some(e),
        Err(SdkError::Generic(e)) => panic!("{e}"),
    }
}

#[test]
fn configurations_are_validated() {
    assert_eq!(refusal(config(None)), None);
    let mut c = config(None);
    c.max_concurrent_claims = 0;
    assert_eq!(refusal(c), Some("max_concurrent_claims must be greater than 0".to_string()));
    let check = |tokens| refusal(config(Some(stable(tokens))));
    assert_eq!(check(vec![]), Some("tokens must not be empty".to_string()));
    assert_eq!(check(vec![token("USD", "a"), token("EUR", "b")]), None);
    assert_eq!(
        check(vec![token("", "")]),
        Some("token label must not be empty".to_string())
    );
    assert_eq!(
        check(vec![token("USD", "")]),
        Some("token_identifier must not be empty".to_string())
    );
    assert_eq!(
        check(vec![token("USD", "a"), token("EUR", "b"), token("USD", "b")]),
        Some("tokens contains duplicate label: USD".to_string())
    );
    assert_eq!(
        check(vec![token("USD", "a"), token("EUR", "a"), token("", "")]),
        Some("tokens contains duplicate token_identifier: a".to_string())
    );
    let mut sb = stable(vec![token("USD", "a")]);
    sb.max_slippage_bps = Some(10000);
    sb.default_active_label = Some("USD".to_string());
    assert_eq!(refusal(config(Some(sb))), None);
    let mut sb = stable(vec![token("USD", "a")]);
    sb.max_slippage_bps = Some(10001);
    sb.default_active_label = Some("EUR".to_string());
    assert_eq!(
        refusal(config(Some(sb))),
        Some("max_slippage_bps must be <= 10000".to_string())
    );
    let mut sb = stable(vec![token("USD", "a")]);
    sb.default_active_label = Some("EUR".to_string());
    assert_eq!(
        refusal(config(Some(sb))),
        Some("default_active_label 'EUR' not found in tokens list".to_string())
    );
}

#[test]
fn parsers_are_listed_defaults_first() {
    let mut c = config(None);
    let ids = |c: &Config| -> Vec<String> {
        c.get_all_external_input_parsers().into_iter().map(|p| p.provider_id).collect()
    };
    assert_eq!(ids(&c), vec!["picknpay", "bootleggers"]);
    let first = &c.get_all_external_input_parsers()[0];
    assert_eq!(first.input_regex, "(.*)(za.co.electrum.picknpay)(.*)");
    assert_eq!(first.parser_url, "https://cryptoqr.net/.well-known/lnurlp/<input>");
    let second = &c.get_all_external_input_parsers()[1];
    assert_eq!(second.input_regex, r"(.*)(wigroup\.co|yoyogroup\.co)(.*)");
    assert_eq!(second.parser_url, "https://cryptoqr.net/.well-known/lnurlw/<input>");
    c.external_input_parsers = Some(vec![ExternalInputParser {
        provider_id: "own".to_string(),
        input_regex: "x".to_string(),
        parser_url: "u".to_string(),
    }]);
    assert_eq!(ids(&c), vec!["picknpay", "bootleggers", "own"]);
    c.use_default_external_input_parsers = false;
    assert_eq!(ids(&c), vec!["own"]);
    c.external_input_parsers = None;
    assert_eq!(ids(&c), Vec::<String>::new());
}

#[test]
fn fees_are_limited() {
    let unused = || Err(SdkError::Generic("unused".to_string()));
    assert_eq!(
        MaxFee::Fixed { amount: 7 }.to_fee(unused()).unwrap(),
        Fee::Fixed { amount: 7 }
    );
    assert_eq!(
        MaxFee::Rate { sat_per_vbyte: 3 }.to_fee(unused()).unwrap(),
        Fee::Rate { sat_per_vbyte: 3 }
    );
    let recommended = MaxFee::NetworkRecommended { leeway_sat_per_vbyte: 2 };
    assert!(recommended.needs_recommended_fees());
    assert!(!MaxFee::Fixed { amount: 7 }.needs_recommended_fees());
    assert_eq!(recommended.to_fee(Ok(5)).unwrap(), Fee::Rate { sat_per_vbyte: 7 });
    assert_eq!(
        recommended.to_fee(Ok(u64::MAX)).unwrap(),
        Fee::Rate { sat_per_vbyte: u64::MAX }
    );
    match recommended.to_fee(unused()) {
        Err(SdkError::Generic(e)) => assert_eq!(e, "unused"),
        _ => panic!("Expected an error"),
    }
    assert_eq!(MaxFee::Fixed { amount: 10 }.to_string(), "Fixed: 10");
    assert_eq!(MaxFee::Rate { sat_per_vbyte: 0 }.to_string(), "Rate: 0");
    assert_eq!(recommended.to_string(), "NetworkRecommended: 2");
}

#[test]
fn fees_are_handed_to_the_wallet() {
    assert_eq!(WalletFee::from(Fee::Fixed { amount: 7 }), WalletFee::Fixed { amount: 7 });
    assert_eq!(
        WalletFee::from(Fee::Rate { sat_per_vbyte: 3 }),
        WalletFee::Rate { sat_per_vbyte: 3 }
    );
}

#[test]
fn fees_are_counted_in_sats() {
    assert_eq!(Fee::Fixed { amount: 7 }.to_sats(1000), 7);
    assert_eq!(Fee::Rate { sat_per_vbyte: 3 }.to_sats(140), 420);
    assert_eq!(Fee::Rate { sat_per_vbyte: u64::MAX }.to_sats(2), u64::MAX);
    let quote = SendOnchainSpeedFeeQuote { user_fee_sat: 3, l1_broadcast_fee_sat: 4 };
    assert_eq!(quote.total_fee_sat(), 7);
    let quote = SendOnchainSpeedFeeQuote { user_fee_sat: u64::MAX, l1_broadcast_fee_sat: 4 };
    assert_eq!(quote.total_fee_sat(), u64::MAX);
    assert_eq!(FeePolicy::default(), FeePolicy::FeesExcluded);
}

#[test]
fn quotes_are_converted() {
    let speed = |n| CoopExitSpeedFeeQuote { user_fee_sat: n, l1_broadcast_fee_sat: n + 1 };
    let quote = CoopExitFeeQuote {
        id: "q".to_string(),
        expires_at: 9,
        speed_fast: speed(1),
        speed_medium: speed(3),
        speed_slow: speed(5),
    };
    let quote = SendOnchainFeeQuote::from(quote);
    assert_eq!(quote.speed_slow.total_fee_sat(), 11);
    let back = CoopExitFeeQuote::from(quote);
    assert_eq!(back.id, "q");
    assert_eq!(back.expires_at, 9);
    assert_eq!(back.speed_medium.user_fee_sat, 3);
    assert_eq!(ExitSpeed::from(OnchainConfirmationSpeed::Fast), ExitSpeed::Fast);
    assert_eq!(OnchainConfirmationSpeed::from(ExitSpeed::Slow), OnchainConfirmationSpeed::Slow);
}

#[test]
fn descriptions_are_found_in_metadata() {
    let description = |metadata: Option<&str>| {
        let info =
            LnurlPayInfo { metadata: metadata.map(|m| m.to_string()), ..Default::default() };
        info.extract_description()
    };
    assert_eq!(description(None), None);
    assert_eq!(description(Some("not json")), None);
    assert_eq!(description(Some("{}")), None);
    assert_eq!(description(Some("[]")), None);
    assert_eq!(
        description(Some(
            r#"[["text/plain"],["text/plain",3],["image/png","x"],["text/plain","a\"b"],["text/plain","c"]]"#
        )),
        Some("a\"b".to_string())
    );
    assert_eq!(description(Some(r#"[["text/plain","a","b"]]"#)), None);
    let text = |t: &str| Some(t.to_string());
    assert_eq!(
        description_in(&vec![vec![None, text("x")], vec![text("text/plain"), text("y")]]),
        text("y")
    );
    assert_eq!(description_in(&vec![vec![text("text/plain"), None]]), None);
}

#[test]
fn lnurls_stand_for_themselves_where_they_cannot_be_encoded() {
    let info = LnurlInfo::new("https://x".to_string(), Some("lnurl1x".to_string()));
    assert_eq!(info.bech32, "lnurl1x");
    let info = LnurlInfo::new("https://x".to_string(), None);
    assert_eq!(info.bech32, "https://x");
    let recovered = LightningAddressInfo::from_recovered(
        RecoverLnurlPayResponse {
            lnurl: "https://x".to_string(),
            lightning_address: "a@b".to_string(),
            username: "a".to_string(),
            description: "d".to_string(),
        },
        Some("lnurl1x".to_string()),
    );
    assert_eq!(recovered.lnurl.url, "https://x");
    assert_eq!(recovered.lnurl.bech32, "lnurl1x");
    assert_eq!(recovered.username, "a");
}

#[test]
fn seeds_are_bytes() {
    let mnemonic = "abandon abandon abandon abandon abandon abandon abandon abandon abandon \
                    abandon abandon about";
    let seed = |passphrase: Option<&str>| {
        Seed::Mnemonic {
            mnemonic: mnemonic.to_string(),
            passphrase: passphrase.map(|p| p.to_string()),
        }
        .to_bytes()
        .unwrap()
    };
    assert_eq!(
        hex::encode(seed(Some("TREZOR"))),
        "c55257c360c07c72029aebc1b53c05ed0362ada38ead3e3e9efa3708e53495531f09a6987599d18264c1e1c92f2cf141630c7a3c4ab7c81b2f001698e7463b04"
    );
    assert_eq!(seed(None), seed(Some("")));
    assert_eq!(Seed::Entropy(vec![1, 2]).to_bytes().unwrap(), vec![1, 2]);
    let broken = Seed::Mnemonic { mnemonic: "abandon".to_string(), passphrase: None };
    assert!(matches!(broken.to_bytes(), Err(SdkError::Generic(_))));
}

#[test]
fn key_sets_are_configured() {
    assert_eq!(
        KeySetConfig::default(),
        KeySetConfig {
            key_set_type: KeySetType::Default,
            use_address_index: false,
            account_number: None
        }
    );
    for t in [
        KeySetType::Default,
        KeySetType::Taproot,
        KeySetType::NativeSegwit,
        KeySetType::WrappedSegwit,
        KeySetType::Legacy,
    ] {
        assert_eq!(KeySetType::from(spark::signer::KeySetType::from(t)), t);
    }
}

#[test]
fn bitcoin_is_bought_from_moonpay_by_default() {
    assert!(matches!(
        BuyBitcoinRequest::default(),
        BuyBitcoinRequest::Moonpay { locked_amount_sat: None, redirect_url: None }
    ));
}
