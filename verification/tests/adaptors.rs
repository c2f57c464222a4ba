use breez_sdk_spark::models::adaptors::{
    derive_htlc_details_from_ssp, reconcile_htlc_preimage, InvoiceToParse, LightningSendPayment,
    LightningSendStatus, ParsedInvoices, PreimageRequest, PreimageRequestStatus,
    SparkWalletWebhookEventType, SspUserRequest, TokenTransactionStatus, TransferDirection,
    TransferStatus, TransferType, WalletOptimizationProgress, WalletTokenBalance,
    WalletTokenMetadata, WalletTransfer, WebhookEntry,
};
use breez_sdk_spark::models::error::SdkError;
use breez_sdk_spark::models::types::{
    Bolt11InvoiceDetails, OptimizationProgress, Payment, PaymentDetails, PaymentMethod,
    PaymentStatus, PaymentType, SparkHtlcDetails, SparkHtlcStatus, SparkInvoiceDetails,
    TokenBalance, Webhook, WebhookEventType,
};
use breez_sdk_spark::spark::crypto::SecretKey;
use breez_sdk_spark::spark::time::SystemTime;

const CUTOFF: i64 = 1_769_904_000;

fn at(secs: i64) -> Option<SystemTime> {
    SystemTime::new(secs, 0)
}

fn text(t: &str) -> Option<String> {
    Some(t.to_string())
}

fn transfer() -> WalletTransfer {
    WalletTransfer {
        id: "t1".to_string(),
        transfer_type: TransferType::Transfer,
        status: TransferStatus::Completed,
        direction: TransferDirection::Incoming,
        total_value_sat: 1000,
        is_ssp_transfer: false,
        spark_invoice: None,
        htlc_preimage_request: None,
        user_request: None,
        created_at: at(50),
        expiry_time: at(60),
    }
}

fn ssp(transfer_type: TransferType, user_request: Option<SspUserRequest>) -> WalletTransfer {
    WalletTransfer { is_ssp_transfer: true, transfer_type, user_request, ..transfer() }
}

fn nothing() -> ParsedInvoices {
    ParsedInvoices { spark: None, lightning: None }
}

fn lightning() -> ParsedInvoices {
    ParsedInvoices {
        spark: None,
        lightning: Some(Bolt11InvoiceDetails {
            description: text("coffee"),
            payee_pubkey: "02aa".to_string(),
            payment_hash: "hash".to_string(),
        }),
    }
}

fn send_request(preimage: Option<&str>, fee: Option<u64>) -> Option<SspUserRequest> {
    Some(SspUserRequest::LightningSendRequest {
        encoded_send_invoice: "lnbc1".to_string(),
        lightning_send_payment_preimage: preimage.map(|p| p.to_string()),
        lightning_fee: fee,
    })
}

fn receive_request(preimage: Option<&str>) -> Option<SspUserRequest> {
    Some(SspUserRequest::LightningReceiveRequest {
        encoded_invoice: "lnbc2".to_string(),
        payment_hash: "own hash".to_string(),
        lightning_receive_payment_preimage: preimage.map(|p| p.to_string()),
    })
}

fn htlc_request(preimage: Option<Vec<u8>>, secs: i64) -> Option<PreimageRequest> {
    Some(PreimageRequest {
        payment_hash: "operators hash".to_string(),
        preimage,
        expiry_time: SystemTime::new(secs, 7).unwrap(),
        status: PreimageRequestStatus::WaitingForPreimage,
    })
}

fn error(res: Result<Payment, SdkError>) -> String {
    match res {
        Err(SdkError::Generic(e)) => e,
        _ => panic!("Expected an error"),
    }
}

fn htlc_of(p: &Payment) -> SparkHtlcDetails {
    match p.details.as_ref().unwrap() {
        PaymentDetails::Lightning { htlc_details, .. } => htlc_details.clone(),
        PaymentDetails::Spark { htlc_details: Some(h), .. } => h.clone(),
        _ => panic!("Expected an HTLC"),
    }
}

#[test]
fn swaps_are_no_payments() {
    for t in [
        TransferType::CounterSwap,
        TransferType::CounterSwapV3,
        TransferType::Swap,
        TransferType::PrimarySwapV3,
    ] {
        let transfer = WalletTransfer { transfer_type: t, ..transfer() };
        assert_eq!(
            error(Payment::from_transfer(&transfer, &nothing())),
            "Swap-related transfers are not considered payments"
        );
    }
}

#[test]
fn plain_transfers_are_spark_payments() {
    let p = Payment::from_transfer(&transfer(), &nothing()).unwrap();
    assert_eq!(p.id, "t1");
    assert_eq!(p.payment_type, PaymentType::Receive);
    assert_eq!(p.status, PaymentStatus::Completed);
    assert_eq!((p.amount, p.fees, p.timestamp), (1000, 0, 50));
    assert_eq!(p.method, PaymentMethod::Spark);
    assert!(matches!(
        p.details,
        Some(PaymentDetails::Spark {
            invoice_details: None,
            htlc_details: None,
            conversion_info: None
        })
    ));
    assert!(p.conversion_details.is_none());
    assert!(transfer().invoice_to_parse().is_none());
}

#[test]
fn statuses_depend_on_the_direction() {
    let status = |status, direction| {
        let t = WalletTransfer { status, direction, ..transfer() };
        Payment::from_transfer(&t, &nothing()).unwrap().status
    };
    let (i, o) = (TransferDirection::Incoming, TransferDirection::Outgoing);
    assert_eq!(status(TransferStatus::SenderKeyTweaked, i), PaymentStatus::Pending);
    assert_eq!(status(TransferStatus::SenderKeyTweaked, o), PaymentStatus::Completed);
    assert_eq!(status(TransferStatus::Expired, i), PaymentStatus::Failed);
    assert_eq!(status(TransferStatus::Returned, o), PaymentStatus::Failed);
    assert_eq!(status(TransferStatus::Other, o), PaymentStatus::Pending);
}

#[test]
fn methods_depend_on_the_transfer() {
    for (t, is_ssp_transfer, method) in [
        (TransferType::PreimageSwap, true, PaymentMethod::Lightning),
        (TransferType::PreimageSwap, false, PaymentMethod::Spark),
        (TransferType::CooperativeExit, true, PaymentMethod::Withdraw),
        (TransferType::UtxoSwap, true, PaymentMethod::Deposit),
        (TransferType::Transfer, true, PaymentMethod::Spark),
        (TransferType::Other, false, PaymentMethod::Unknown),
    ] {
        let t = WalletTransfer { transfer_type: t, is_ssp_transfer, ..transfer() };
        assert_eq!(PaymentMethod::from_transfer(&t), method);
    }
}

#[test]
fn spark_invoices_are_kept() {
    let t = WalletTransfer { spark_invoice: text("spark1invoice"), ..transfer() };
    assert!(matches!(t.invoice_to_parse(), Some(InvoiceToParse::Spark(s)) if s == "spark1invoice"));
    assert_eq!(error(Payment::from_transfer(&t, &nothing())), "Invalid spark invoice");
    let parsed = ParsedInvoices {
        spark: Some(SparkInvoiceDetails {
            description: text("lunch"),
            invoice: "spark1invoice".to_string(),
        }),
        lightning: None,
    };
    match Payment::from_transfer(&t, &parsed).unwrap().details {
        Some(PaymentDetails::Spark { invoice_details: Some(d), htlc_details: None, .. }) => {
            assert_eq!(d.description, text("lunch"));
            assert_eq!(d.invoice, "spark1invoice");
        }
        _ => panic!("Expected an invoice"),
    }
}

#[test]
fn spark_htlcs_are_kept() {
    let t = WalletTransfer { htlc_preimage_request: htlc_request(None, 99), ..transfer() };
    let h = htlc_of(&Payment::from_transfer(&t, &nothing()).unwrap());
    assert_eq!(h.payment_hash, "operators hash");
    assert_eq!(h.expiry_time, 99);
    assert_eq!(h.preimage, None);
    assert_eq!(h.status, SparkHtlcStatus::WaitingForPreimage);
    let t = WalletTransfer { htlc_preimage_request: htlc_request(None, -1), ..transfer() };
    assert_eq!(
        error(Payment::from_transfer(&t, &nothing())),
        "Invalid expiry time: second time provided was later than self"
    );
}

#[test]
fn lightning_sends_bear_their_fee() {
    let t = WalletTransfer {
        direction: TransferDirection::Outgoing,
        status: TransferStatus::Other,
        ..ssp(TransferType::PreimageSwap, send_request(None, Some(10)))
    };
    assert!(matches!(t.invoice_to_parse(), Some(InvoiceToParse::Lightning(s)) if s == "lnbc1"));
    let p = Payment::from_transfer(&t, &lightning()).unwrap();
    assert_eq!((p.amount, p.fees), (990, 10));
    assert_eq!(p.status, PaymentStatus::Pending);
    assert_eq!(p.method, PaymentMethod::Lightning);
    let h = htlc_of(&p);
    assert_eq!(h.payment_hash, "hash");
    assert_eq!(h.expiry_time, 60);
    assert_eq!(h.status, SparkHtlcStatus::WaitingForPreimage);
    match p.details {
        Some(PaymentDetails::Lightning {
            description,
            invoice,
            destination_pubkey,
            lnurl_pay_info: None,
            lnurl_withdraw_info: None,
            lnurl_receive_metadata: None,
            ..
        }) => {
            assert_eq!(description, text("coffee"));
            assert_eq!(invoice, "lnbc1");
            assert_eq!(destination_pubkey, "02aa");
        }
        _ => panic!("Expected Lightning"),
    }
    assert_eq!(
        error(Payment::from_transfer(&t, &nothing())),
        "Invalid invoice in SspUserRequest::LightningSendRequest"
    );
    let t = ssp(TransferType::PreimageSwap, send_request(None, Some(5000)));
    let p = Payment::from_transfer(&t, &lightning()).unwrap();
    assert_eq!((p.amount, p.fees), (0, 5000));
}

#[test]
fn preimages_complete_lightning_sends() {
    let t = WalletTransfer {
        status: TransferStatus::Other,
        htlc_preimage_request: htlc_request(None, 5),
        ..ssp(TransferType::PreimageSwap, send_request(Some("aa"), None))
    };
    let p = Payment::from_transfer(&t, &lightning()).unwrap();
    assert_eq!(p.status, PaymentStatus::Completed);
    assert_eq!(p.fees, 0);
    let h = htlc_of(&p);
    assert_eq!(h.preimage, text("aa"));
    assert_eq!(h.status, SparkHtlcStatus::PreimageShared);
    let t = WalletTransfer { htlc_preimage_request: htlc_request(Some(vec![0xbb, 1]), 5), ..t };
    assert_eq!(htlc_of(&Payment::from_transfer(&t, &lightning()).unwrap()).preimage, text("bb01"));
}

#[test]
fn lightning_receipts_use_their_own_hash() {
    let t = ssp(TransferType::PreimageSwap, receive_request(Some("cc")));
    assert!(matches!(t.invoice_to_parse(), Some(InvoiceToParse::Lightning(s)) if s == "lnbc2"));
    let p = Payment::from_transfer(&t, &lightning()).unwrap();
    let h = htlc_of(&p);
    assert_eq!(h.payment_hash, "own hash");
    assert_eq!(h.preimage, text("cc"));
    assert_eq!(h.status, SparkHtlcStatus::PreimageShared);
    assert_eq!((p.amount, p.fees), (1000, 0));
    assert_eq!(
        error(Payment::from_transfer(&t, &nothing())),
        "Invalid invoice in SspUserRequest::LightningReceiveRequest"
    );
}

#[test]
fn new_transfers_bring_their_htlc() {
    let with = |created_at| WalletTransfer {
        created_at,
        ..ssp(TransferType::PreimageSwap, receive_request(None))
    };
    assert!(Payment::from_transfer(&with(at(CUTOFF - 1)), &lightning()).is_ok());
    assert!(Payment::from_transfer(&with(None), &lightning()).is_ok());
    assert_eq!(
        error(Payment::from_transfer(&with(at(CUTOFF)), &lightning())),
        "Missing HTLC details for Lightning payment transfer t1"
    );
    for (status, want) in [
        (TransferStatus::Completed, SparkHtlcStatus::PreimageShared),
        (TransferStatus::Expired, SparkHtlcStatus::Returned),
        (TransferStatus::Returned, SparkHtlcStatus::Returned),
        (TransferStatus::SenderKeyTweaked, SparkHtlcStatus::WaitingForPreimage),
    ] {
        let t = WalletTransfer { status, expiry_time: at(-3), ..with(None) };
        let h = derive_htlc_details_from_ssp(&t, &"h".to_string(), &None).unwrap();
        assert_eq!(h.status, want);
        assert_eq!(h.expiry_time, 0);
    }
}

#[test]
fn withdrawals_and_deposits_have_transactions() {
    let t = ssp(
        TransferType::CooperativeExit,
        Some(SspUserRequest::CoopExitRequest {
            coop_exit_txid: "exit".to_string(),
            fee: Some(3),
            l1_broadcast_fee: Some(4),
        }),
    );
    let p = Payment::from_transfer(&t, &nothing()).unwrap();
    assert_eq!((p.amount, p.fees), (993, 7));
    assert!(matches!(p.details, Some(PaymentDetails::Withdraw { tx_id }) if tx_id == "exit"));
    let t = ssp(
        TransferType::UtxoSwap,
        Some(SspUserRequest::ClaimStaticDeposit {
            transaction_id: "deposit".to_string(),
            deposit_amount: Some(1100),
            credit_amount: Some(1000),
        }),
    );
    let p = Payment::from_transfer(&t, &nothing()).unwrap();
    assert_eq!((p.amount, p.fees), (1000, 100));
    assert!(matches!(p.details, Some(PaymentDetails::Deposit { tx_id }) if tx_id == "deposit"));
    let t = ssp(TransferType::Transfer, Some(SspUserRequest::LeavesSwapRequest));
    let p = Payment::from_transfer(&t, &nothing()).unwrap();
    assert!(matches!(p.details, Some(PaymentDetails::Spark { .. })));
    assert_eq!((p.amount, p.fees), (1000, 0));
}

#[test]
fn payments_without_their_request_stay_pending() {
    for (t, want) in [
        (TransferType::CooperativeExit, PaymentStatus::Pending),
        (TransferType::PreimageSwap, PaymentStatus::Pending),
        (TransferType::UtxoSwap, PaymentStatus::Pending),
        (TransferType::Transfer, PaymentStatus::Completed),
    ] {
        let p = Payment::from_transfer(&ssp(t, None), &nothing()).unwrap();
        assert_eq!(p.status, want);
        assert!(p.details.is_none());
        assert_eq!(p.amount, 1000);
    }
    let t = WalletTransfer { created_at: at(-5), ..transfer() };
    assert_eq!(Payment::from_transfer(&t, &nothing()).unwrap().timestamp, 0);
}

fn htlc(preimage: Option<&str>) -> SparkHtlcDetails {
    SparkHtlcDetails {
        payment_hash: "h".to_string(),
        preimage: preimage.map(|p| p.to_string()),
        expiry_time: 1,
        status: SparkHtlcStatus::WaitingForPreimage,
    }
}

#[test]
fn preimages_are_reconciled() {
    let mut h = htlc(None);
    reconcile_htlc_preimage(&mut h, &None);
    assert_eq!(h, htlc(None));
    reconcile_htlc_preimage(&mut h, &text("aa"));
    assert_eq!(h.preimage, text("aa"));
    assert_eq!(h.status, SparkHtlcStatus::PreimageShared);
    reconcile_htlc_preimage(&mut h, &text("bb"));
    assert_eq!(h.preimage, text("aa"));
}

fn sent(status: LightningSendStatus, preimage: Option<&str>) -> LightningSendPayment {
    LightningSendPayment {
        encoded_invoice: "lnbc1".to_string(),
        status,
        payment_preimage: preimage.map(|p| p.to_string()),
        fee_sat: 2,
        created_at: 77,
    }
}

#[test]
fn lightning_payments_are_payments() {
    let make = |p| {
        Payment::from_lightning(p, 500, "id".to_string(), htlc(None), lightning().lightning)
            .unwrap()
    };
    for (status, want) in [
        (LightningSendStatus::LightningPaymentSucceeded, PaymentStatus::Completed),
        (LightningSendStatus::LightningPaymentFailed, PaymentStatus::Failed),
        (LightningSendStatus::TransferFailed, PaymentStatus::Failed),
        (LightningSendStatus::PreimageProvidingFailed, PaymentStatus::Failed),
        (LightningSendStatus::UserSwapReturnFailed, PaymentStatus::Failed),
        (LightningSendStatus::UserSwapReturned, PaymentStatus::Failed),
        (LightningSendStatus::Other, PaymentStatus::Pending),
    ] {
        assert_eq!(make(sent(status, None)).status, want);
        assert_eq!(make(sent(status, Some("aa"))).status, PaymentStatus::Completed);
    }
    let p = make(sent(LightningSendStatus::Other, Some("aa")));
    assert_eq!((p.amount, p.fees, p.timestamp), (500, 2, 77));
    assert_eq!(p.payment_type, PaymentType::Send);
    assert_eq!(htlc_of(&p).preimage, text("aa"));
    let mut early = sent(LightningSendStatus::Other, None);
    early.created_at = -1;
    assert_eq!(make(early).timestamp, u64::MAX);
    let broken = sent(LightningSendStatus::Other, None);
    assert_eq!(
        error(Payment::from_lightning(broken, 1, "id".to_string(), htlc(None), None)),
        "Invalid invoice in LightnintSendPayment"
    );
}

#[test]
fn token_transactions_have_statuses() {
    let status = PaymentStatus::from_token_transaction_status;
    assert_eq!(status(TokenTransactionStatus::Started, false), PaymentStatus::Pending);
    assert_eq!(status(TokenTransactionStatus::Revealed, false), PaymentStatus::Pending);
    assert_eq!(status(TokenTransactionStatus::Unknown, true), PaymentStatus::Pending);
    assert_eq!(status(TokenTransactionStatus::Signed, true), PaymentStatus::Pending);
    assert_eq!(status(TokenTransactionStatus::Signed, false), PaymentStatus::Completed);
    assert_eq!(status(TokenTransactionStatus::Finalized, true), PaymentStatus::Completed);
    assert_eq!(status(TokenTransactionStatus::StartedCancelled, true), PaymentStatus::Failed);
    assert_eq!(status(TokenTransactionStatus::SignedCancelled, false), PaymentStatus::Failed);
}

#[test]
fn issuers_are_shown_in_hexadecimal() {
    let key = SecretKey::from_slice(&[3; 32]).unwrap().public_key();
    let balance = TokenBalance::from_wallet(WalletTokenBalance {
        balance: 9,
        token_metadata: WalletTokenMetadata {
            identifier: "id".to_string(),
            issuer_public_key: key.clone(),
            name: "n".to_string(),
            ticker: "t".to_string(),
            decimals: 2,
            max_supply: 5,
            is_freezable: true,
        },
    });
    assert_eq!(balance.balance, 9);
    assert_eq!(balance.token_metadata.issuer_public_key, hex::encode(key.serialize()));
    assert_eq!(balance.token_metadata.decimals, 2);
}

#[test]
fn webhooks_are_converted() {
    let hook = Webhook::from_entry(WebhookEntry {
        webhook_id: "w".to_string(),
        url: "u".to_string(),
        event_types: vec![
            SparkWalletWebhookEventType::SparkLightningReceiveFinished,
            SparkWalletWebhookEventType::Unknown("x".to_string()),
        ],
    });
    assert_eq!(hook.id, "w");
    assert_eq!(
        hook.event_types,
        vec![
            WebhookEventType::LightningReceiveFinished,
            WebhookEventType::Unknown("x".to_string())
        ]
    );
    for e in [
        SparkWalletWebhookEventType::SparkLightningReceiveFinished,
        SparkWalletWebhookEventType::SparkLightningSendFinished,
        SparkWalletWebhookEventType::SparkCoopExitFinished,
        SparkWalletWebhookEventType::SparkStaticDepositFinished,
    ] {
        let there = WebhookEventType::from(e.clone());
        assert_eq!(SparkWalletWebhookEventType::from(there), e);
    }
    let progress = OptimizationProgress::from(WalletOptimizationProgress {
        is_running: true,
        current_round: 1,
        total_rounds: 2,
    });
    assert_eq!((progress.is_running, progress.current_round, progress.total_rounds), (true, 1, 2));
}
