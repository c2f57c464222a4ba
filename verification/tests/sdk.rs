use bitcoin::bip32::DerivationPath;
use breez_sdk_spark::models::error::SdkError;
use breez_sdk_spark::models::types::{
    Config, Network, OptimizationConfig, Payment, PaymentMethod, PaymentStatus, PaymentType,
};
use breez_sdk_spark::sdk::flashnet::{FlashnetConfig, IntegratorConfig};
use breez_sdk_spark::sdk::init::{
    api_key_to_validate, ensure_spark_private_mode_initialized, init_and_start,
    private_mode_settings, PrivateModeEvent, PrivateModeState, StartupTask,
};
use breez_sdk_spark::sdk::local::{
    balance_log_context, local_operator_addresses, local_spark_config, parse_bool,
    LOCAL_OPERATOR_PUBLIC_KEYS,
};
use breez_sdk_spark::sdk::rtsync::RTSyncSigner;
use breez_sdk_spark::spark;
use breez_sdk_spark::spark::crypto::SecretKey;

fn config(network: Network, api_key: Option<&str>) -> Config {
    Config {
        api_key: api_key.map(|k| k.to_string()),
        network,
        sync_interval_secs: 60,
        max_deposit_claim_fee: None,
        lnurl_domain: None,
        prefer_spark_over_lightning: false,
        external_input_parsers: None,
        use_default_external_input_parsers: true,
        real_time_sync_server_url: None,
        private_enabled_default: true,
        optimization_config: OptimizationConfig { auto_enabled: true, multiplicity: 1 },
        stable_balance_config: None,
        max_concurrent_claims: 4,
        spark_config: None,
    }
}

fn generic(e: SdkError) -> String {
    match e {
        SdkError::Generic(e) => e,
        SdkError::InvalidInput(e) => panic!("{e}"),
    }
}

#[test]
fn the_main_network_needs_a_key() {
    let missing = config(Network::Mainnet, None);
    assert_eq!(generic(api_key_to_validate(&missing).unwrap_err()), "Missing Breez API key");
    assert_eq!(generic(init_and_start(&missing, Ok(())).unwrap_err()), "Missing Breez API key");
    let given = config(Network::Mainnet, Some("key"));
    assert_eq!(api_key_to_validate(&given).unwrap(), Some(&"key".to_string()));
    let refused = Err(SdkError::Generic("Invalid API key".to_string()));
    assert_eq!(generic(init_and_start(&given, refused).unwrap_err()), "Invalid API key");
    assert!(init_and_start(&given, Ok(())).is_ok());
    for network in [Network::Regtest, Network::Local] {
        let c = config(network, None);
        assert_eq!(api_key_to_validate(&c).unwrap(), None);
        assert!(init_and_start(&c, Err(SdkError::Generic("unused".to_string()))).is_ok());
    }
}

#[test]
fn background_tasks_follow_the_configuration() {
    let mut c = config(Network::Regtest, None);
    let plan = init_and_start(&c, Ok(())).unwrap();
    assert_eq!(plan.tasks, vec![StartupTask::InitializePrivateMode, StartupTask::PeriodicSync]);
    assert_eq!(plan.external_input_parsers.len(), 2);
    c.lnurl_domain = Some("breez.tips".to_string());
    let plan = init_and_start(&c, Ok(())).unwrap();
    assert_eq!(
        plan.tasks,
        vec![
            StartupTask::InitializePrivateMode,
            StartupTask::PeriodicSync,
            StartupTask::RecoverLightningAddress
        ]
    );
}

fn run(enabled: bool, events: &[PrivateModeEvent]) -> PrivateModeState {
    let mut state = PrivateModeState::Fetching;
    for event in events {
        state = ensure_spark_private_mode_initialized(enabled, state, *event);
    }
    state
}

#[test]
fn the_private_mode_is_set_up_once() {
    let (no, yes, done, error) = (
        PrivateModeEvent::Fetched(false),
        PrivateModeEvent::Fetched(true),
        PrivateModeEvent::Done,
        PrivateModeEvent::Error,
    );
    assert_eq!(run(true, &[yes]), PrivateModeState::Initialized);
    assert_eq!(run(true, &[no]), PrivateModeState::Enabling);
    assert_eq!(run(true, &[no, done]), PrivateModeState::Saving);
    assert_eq!(run(true, &[no, done, done]), PrivateModeState::Initialized);
    assert_eq!(run(false, &[no]), PrivateModeState::Saving);
    assert_eq!(run(false, &[no, done]), PrivateModeState::Initialized);
    assert_eq!(run(false, &[no, done, error, no]), PrivateModeState::Initialized);
    assert_eq!(run(true, &[error]), PrivateModeState::Failed);
    assert_eq!(run(true, &[no, error]), PrivateModeState::Failed);
    assert_eq!(run(true, &[no, done, error]), PrivateModeState::Failed);
    let settings = private_mode_settings();
    assert_eq!(settings.spark_private_mode_enabled, Some(true));
    assert!(settings.stable_balance_active_label.is_none());
}

fn numbers(path: &str) -> Vec<u32> {
    path.parse::<DerivationPath>().unwrap().to_u32_vec()
}

#[test]
fn sync_keys_depend_on_the_network() {
    let main = RTSyncSigner::new(Network::Mainnet).unwrap();
    assert_eq!(main.signing_path(), &numbers("m/1220588449'/0'/0'/0/0"));
    assert_eq!(main.encryption_path(), &numbers("m/1782705014'/0'/0'/0/0"));
    for network in [Network::Regtest, Network::Local] {
        let test = RTSyncSigner::new(network).unwrap();
        assert_eq!(test.signing_path(), &numbers("m/1220588449'/1'/0'/0/0"));
        assert_eq!(test.encryption_path(), &numbers("m/1782705014'/1'/0'/0/0"));
    }
}

#[test]
fn sync_signatures_start_with_the_recovery_byte() {
    let signer = RTSyncSigner::new(Network::Mainnet).unwrap();
    assert_eq!(
        hex::encode(signer.digest(b"")),
        "5df6e0e2761359d30a8275058e299fcc0381534545f55cf43e41983f5d4c9456"
    );
    assert_eq!(signer.complete_signature(2, &vec![7, 8]), Ok(vec![33, 7, 8]));
    assert_eq!(signer.complete_signature(255, &vec![7]), Ok(vec![255, 7]));
    for id in [-1, 256] {
        assert_eq!(
            signer.complete_signature(id, &vec![]),
            Err("out of range integral type conversion attempted".to_string())
        );
    }
}

#[test]
fn conversions_are_made_elsewhere_on_test_networks() {
    let pubkey = SecretKey::generate().public_key();
    let integrator = IntegratorConfig { pubkey: pubkey.clone(), fee_bps: 5 };
    let main = FlashnetConfig::default_config(spark::network::Network::Mainnet, Some(integrator));
    assert_eq!(main.base_url, "https://api.flashnet.xyz");
    let kept = main.integrator_config.unwrap();
    assert_eq!(kept.pubkey, pubkey);
    assert_eq!(kept.fee_bps, 5);
    for network in [
        spark::network::Network::Regtest,
        spark::network::Network::Local,
        spark::network::Network::Testnet,
        spark::network::Network::Signet,
    ] {
        let test = FlashnetConfig::default_config(network, None);
        assert_eq!(test.base_url, "https://api.amm.makebitcoingreatagain.dev");
        assert_eq!(test.network, network);
    }
}

#[test]
fn local_operators_are_addressed() {
    assert_eq!(
        local_operator_addresses(2, 8535, None),
        Ok(vec!["https://localhost:8535".to_string(), "https://localhost:8536".to_string()])
    );
    assert_eq!(
        local_operator_addresses(1, 0, Some("spark.minikube.local")),
        Ok(vec!["https://0.spark.minikube.local".to_string()])
    );
    assert_eq!(
        local_operator_addresses(0, 1, None),
        Err("BREEZ_LOCAL_OPERATOR_COUNT must be at least 1".to_string())
    );
    assert_eq!(
        local_operator_addresses(12, 1, None),
        Err("BREEZ_LOCAL_OPERATOR_COUNT=12 is unsupported; max is 5".to_string())
    );
}

#[test]
fn local_environments_are_configured() {
    let addresses = local_operator_addresses(3, 8535, None).unwrap();
    let c = local_spark_config(&addresses, "http://127.0.0.1:5000".to_string());
    assert_eq!(c.threshold, 2);
    assert_eq!(c.coordinator_identifier, format!("{:064x}", 1));
    assert_eq!(c.signing_operators.len(), 3);
    for (i, operator) in c.signing_operators.iter().enumerate() {
        assert_eq!(operator.id as usize, i);
        assert_eq!(operator.identifier, format!("{:064x}", i + 1));
        assert_eq!(operator.address, addresses[i]);
        assert_eq!(operator.identity_public_key, LOCAL_OPERATOR_PUBLIC_KEYS[i]);
    }
    assert_eq!(c.ssp_config.base_url, "http://127.0.0.1:5000");
    assert_eq!(c.ssp_config.schema_endpoint, Some("graphql/spark/rc".to_string()));
    assert_eq!(c.expected_withdraw_bond_sats, 10_000);
    assert_eq!(c.expected_withdraw_relative_block_locktime, 1_000);
}

#[test]
fn switches_have_several_spellings() {
    let parse = |v: &str| parse_bool("X", Some(v.to_string()), false);
    for v in ["1", "true", "TRUE", "Yes", "y"] {
        assert_eq!(parse(v), Ok(true));
    }
    for v in ["0", "false", "NO", "n"] {
        assert_eq!(parse(v), Ok(false));
    }
    assert_eq!(parse("maybe"), Err("failed to parse X=maybe as bool".to_string()));
    assert_eq!(parse_bool("X", None, true), Ok(true));
}

#[test]
fn settled_receipts_are_logged() {
    let mut payment = Payment {
        id: "p1".to_string(),
        payment_type: PaymentType::Receive,
        status: PaymentStatus::Completed,
        amount: u128::MAX,
        fees: 0,
        timestamp: 0,
        method: PaymentMethod::Lightning,
        details: None,
        conversion_details: None,
    };
    assert_eq!(
        balance_log_context(&payment).unwrap(),
        format!("received payment settled: id=p1, method=lightning, amount={}", u128::MAX)
    );
    payment.payment_type = PaymentType::Send;
    assert!(balance_log_context(&payment).is_none());
}
