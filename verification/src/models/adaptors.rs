//! How the wallet's transfers become payments.
use super::error::{SdkError, SdkFault};
use super::fees::capped;
use super::types::{
    Bolt11InvoiceDetails, ConversionDetails, ConversionInfo, LnurlPayInfo, LnurlReceiveMetadata,
    LnurlWithdrawInfo, OptimizationProgress, Payment, PaymentDetails, PaymentMethod, PaymentStatus,
    PaymentType, SparkHtlcDetails, SparkHtlcStatus, SparkInvoiceDetails, SparkInvoicePaymentDetails,
    TokenBalance, TokenMetadata, TokenTransactionType, Webhook, WebhookEventType,
};
use crate::bytes::{hex_encode, hex_text};
use crate::spark::crypto::PublicKey;
use crate::spark::messages::unsigned64;
use crate::spark::time::SystemTime;
use crate::text::{clone_text, join, text_option};
use vstd::prelude::*;
use vstd::std_specs::convert::{FromSpec, FromSpecImpl};
use vstd::string::*;

verus! {

broadcast use vstd::string::group_string_axioms;

/// The start of February 2026. Older transfers may lack HTLC data.
pub const HTLC_DATA_REQUIRED_SINCE: u64 = 1_769_904_000;

/// What kind of transfer it is.
#[derive(Clone, Copy, Debug, PartialEq, Eq, Structural)]
pub enum TransferType {
    PreimageSwap,
    CooperativeExit,
    UtxoSwap,
    Transfer,
    CounterSwap,
    CounterSwapV3,
    Swap,
    PrimarySwapV3,
    Other,
}

/// How far a transfer has come.
#[derive(Clone, Copy, Debug, PartialEq, Eq, Structural)]
pub enum TransferStatus {
    Completed,
    SenderKeyTweaked,
    Expired,
    Returned,
    Other,
}

#[derive(Clone, Copy, Debug, PartialEq, Eq, Structural)]
pub enum TransferDirection {
    Incoming,
    Outgoing,
}

#[derive(Clone, Copy, Debug, PartialEq, Eq, Structural)]
pub enum PreimageRequestStatus {
    WaitingForPreimage,
    PreimageShared,
    Returned,
}

/// An HTLC as the operators know it.
#[derive(Debug)]
pub struct PreimageRequest {
    pub payment_hash: String,
    pub preimage: Option<Vec<u8>>,
    pub expiry_time: SystemTime,
    pub status: PreimageRequestStatus,
}

/// What was asked of the service provider. Amounts are in satoshis, where they can
/// be given so.
#[derive(Debug)]
pub enum SspUserRequest {
    LightningReceiveRequest {
        encoded_invoice: String,
        payment_hash: String,
        lightning_receive_payment_preimage: Option<String>,
    },
    LightningSendRequest {
        encoded_send_invoice: String,
        lightning_send_payment_preimage: Option<String>,
        lightning_fee: Option<u64>,
    },
    CoopExitRequest { coop_exit_txid: String, fee: Option<u64>, l1_broadcast_fee: Option<u64> },
    LeavesSwapRequest,
    ClaimStaticDeposit {
        transaction_id: String,
        deposit_amount: Option<u64>,
        credit_amount: Option<u64>,
    },
}

/// A transfer as the wallet knows it.
#[derive(Debug)]
pub struct WalletTransfer {
    pub id: String,
    pub transfer_type: TransferType,
    pub status: TransferStatus,
    pub direction: TransferDirection,
    pub total_value_sat: u64,
    pub is_ssp_transfer: bool,
    pub spark_invoice: Option<String>,
    pub htlc_preimage_request: Option<PreimageRequest>,
    pub user_request: Option<SspUserRequest>,
    pub created_at: Option<SystemTime>,
    pub expiry_time: Option<SystemTime>,
}

/// What is read from the invoice that a transfer names: a Spark invoice where it
/// is between users, a Lightning invoice where it goes through the service
/// provider. Nothing where the invoice cannot be read.
#[derive(Debug)]
pub struct ParsedInvoices {
    pub spark: Option<SparkInvoiceDetails>,
    pub lightning: Option<Bolt11InvoiceDetails>,
}

#[verifier::ext_equal]
pub struct HtlcValue {
    pub payment_hash: Seq<char>,
    pub preimage: Option<Seq<char>>,
    pub expiry_time: u64,
    pub status: SparkHtlcStatus,
}

#[verifier::ext_equal]
pub struct InvoiceTextValue {
    pub description: Option<Seq<char>>,
    pub invoice: Seq<char>,
}

#[verifier::ext_equal]
pub enum DetailsValue {
    Spark {
        spark_invoice: Option<InvoiceTextValue>,
        spark_htlc: Option<HtlcValue>,
        spark_conversion: Option<ConversionInfo>,
    },
    Token {
        metadata: TokenMetadata,
        tx_hash: Seq<char>,
        tx_type: TokenTransactionType,
        token_invoice: Option<InvoiceTextValue>,
        token_conversion: Option<ConversionInfo>,
    },
    Lightning {
        description: Option<Seq<char>>,
        invoice: Seq<char>,
        destination_pubkey: Seq<char>,
        htlc: HtlcValue,
        lnurl_pay_info: Option<LnurlPayInfo>,
        lnurl_withdraw_info: Option<LnurlWithdrawInfo>,
        lnurl_receive_metadata: Option<LnurlReceiveMetadata>,
    },
    Withdraw { withdraw_tx_id: Seq<char> },
    Deposit { deposit_tx_id: Seq<char> },
}

#[verifier::ext_equal]
pub struct PaymentValue {
    pub id: Seq<char>,
    pub payment_type: PaymentType,
    pub status: PaymentStatus,
    pub amount: u128,
    pub fees: u128,
    pub timestamp: u64,
    pub method: PaymentMethod,
    pub details: Option<DetailsValue>,
    pub conversion_details: Option<ConversionDetails>,
}

impl View for SparkHtlcDetails {
    type V = HtlcValue;

    open spec fn view(&self) -> HtlcValue {
        HtlcValue {
            payment_hash: self.payment_hash@,
            preimage: text_option(self.preimage),
            expiry_time: self.expiry_time,
            status: self.status,
        }
    }
}

pub open spec fn invoice_text_value(d: Option<SparkInvoicePaymentDetails>) -> Option<
    InvoiceTextValue,
> {
    match d {
        Some(d) => Some(
            InvoiceTextValue { description: text_option(d.description), invoice: d.invoice@ },
        ),
        None => None,
    }
}

impl View for PaymentDetails {
    type V = DetailsValue;

    open spec fn view(&self) -> DetailsValue {
        match *self {
            PaymentDetails::Spark { invoice_details, htlc_details, conversion_info } => {
                DetailsValue::Spark {
                    spark_invoice: invoice_text_value(invoice_details),
                    spark_htlc: match htlc_details {
                        Some(h) => Some(h@),
                        None => None,
                    },
                    spark_conversion: conversion_info,
                }
            },
            PaymentDetails::Token { metadata, tx_hash, tx_type, invoice_details, conversion_info } => {
                DetailsValue::Token {
                    metadata,
                    tx_hash: tx_hash@,
                    tx_type,
                    token_invoice: invoice_text_value(invoice_details),
                    token_conversion: conversion_info,
                }
            },
            PaymentDetails::Lightning {
                description,
                invoice,
                destination_pubkey,
                htlc_details,
                lnurl_pay_info,
                lnurl_withdraw_info,
                lnurl_receive_metadata,
            } => {
                DetailsValue::Lightning {
                    description: text_option(description),
                    invoice: invoice@,
                    destination_pubkey: destination_pubkey@,
                    htlc: htlc_details@,
                    lnurl_pay_info,
                    lnurl_withdraw_info,
                    lnurl_receive_metadata,
                }
            },
            PaymentDetails::Withdraw { tx_id } => DetailsValue::Withdraw { withdraw_tx_id: tx_id@ },
            PaymentDetails::Deposit { tx_id } => DetailsValue::Deposit { deposit_tx_id: tx_id@ },
        }
    }
}

impl View for Payment {
    type V = PaymentValue;

    open spec fn view(&self) -> PaymentValue {
        PaymentValue {
            id: self.id@,
            payment_type: self.payment_type,
            status: self.status,
            amount: self.amount,
            fees: self.fees,
            timestamp: self.timestamp,
            method: self.method,
            details: match self.details {
                Some(d) => Some(d@),
                None => None,
            },
            conversion_details: self.conversion_details,
        }
    }
}

/// The whole seconds of a point in time; zero where there is none or it lies
/// before the Unix epoch.
pub open spec fn unix_secs(t: Option<SystemTime>) -> u64 {
    match t {
        Some(t) => if t.spec_secs() < 0 {
            0
        } else {
            t.spec_secs() as u64
        },
        None => 0,
    }
}

fn secs_of(t: &Option<SystemTime>) -> (res: u64)
    ensures
        res == unix_secs(*t),
{
    match t {
        Some(t) => t.secs_since_epoch(),
        None => 0,
    }
}

/// Whether a transfer is old enough to lack HTLC data.
pub open spec fn may_lack_htlc_data(created_at: Option<SystemTime>) -> bool {
    match created_at {
        Some(t) => t.spec_secs() < HTLC_DATA_REQUIRED_SINCE,
        None => true,
    }
}

/// The HTLC of an old transfer, out of what the service provider knows. A new
/// transfer has to bring its own.
pub open spec fn derived_htlc(
    transfer: WalletTransfer,
    payment_hash: Seq<char>,
    preimage: Option<Seq<char>>,
) -> Result<HtlcValue, SdkFault> {
    if may_lack_htlc_data(transfer.created_at) {
        Ok(
            HtlcValue {
                payment_hash,
                preimage,
                expiry_time: unix_secs(transfer.expiry_time),
                status: match transfer.status {
                    TransferStatus::Completed => SparkHtlcStatus::PreimageShared,
                    TransferStatus::Expired | TransferStatus::Returned => SparkHtlcStatus::Returned,
                    _ => SparkHtlcStatus::WaitingForPreimage,
                },
            },
        )
    } else {
        Err(
            SdkFault::Generic(
                "Missing HTLC details for Lightning payment transfer "@ + transfer.id@,
            ),
        )
    }
}

pub fn derive_htlc_details_from_ssp(
    transfer: &WalletTransfer,
    payment_hash: &String,
    preimage: &Option<String>,
) -> (res: Result<SparkHtlcDetails, SdkError>)
    ensures
        match (res, derived_htlc(*transfer, payment_hash@, text_option(*preimage))) {
            (Ok(h), Ok(model)) => h@ == model,
            (Err(e), Err(f)) => e@ == f,
            _ => false,
        },
{
    let is_old = match &transfer.created_at {
        Some(t) => t.secs_since_epoch() < HTLC_DATA_REQUIRED_SINCE,
        None => true,
    };
    if !is_old {
        return Err(
            SdkError::Generic(
                join(
                    "Missing HTLC details for Lightning payment transfer ",
                    transfer.id.as_str(),
                ),
            ),
        );
    }
    let status = match transfer.status {
        TransferStatus::Completed => SparkHtlcStatus::PreimageShared,
        TransferStatus::Expired | TransferStatus::Returned => SparkHtlcStatus::Returned,
        _ => SparkHtlcStatus::WaitingForPreimage,
    };
    Ok(
        SparkHtlcDetails {
            payment_hash: payment_hash.clone(),
            preimage: clone_text(preimage),
            expiry_time: secs_of(&transfer.expiry_time),
            status,
        },
    )
}

/// An HTLC with the preimage filled in, if it lacks one. With a preimage it is
/// shared.
pub open spec fn reconciled(h: HtlcValue, fallback: Option<Seq<char>>) -> HtlcValue {
    let preimage = if h.preimage is Some {
        h.preimage
    } else {
        fallback
    };
    HtlcValue {
        preimage,
        status: if preimage is Some {
            SparkHtlcStatus::PreimageShared
        } else {
            h.status
        },
        ..h
    }
}

/// Filling in a preimage twice is filling it in once, and a preimage that is there
/// stays.
pub proof fn reconciling_settles(h: HtlcValue, first: Option<Seq<char>>, second: Option<Seq<char>>)
    ensures
        reconciled(reconciled(h, first), first) == reconciled(h, first),
        h.preimage is Some || first is Some ==> reconciled(reconciled(h, first), second)
            == reconciled(h, first),
        h.preimage is Some ==> reconciled(h, first).preimage == h.preimage,
        reconciled(h, first).preimage is Some ==> reconciled(h, first).status
            == SparkHtlcStatus::PreimageShared,
{
}

pub fn reconcile_htlc_preimage(details: &mut SparkHtlcDetails, preimage: &Option<String>)
    ensures
        final(details)@ == reconciled(old(details)@, text_option(*preimage)),
{
    if details.preimage.is_none() {
        details.preimage = clone_text(preimage);
    }
    if details.preimage.is_some() {
        details.status = SparkHtlcStatus::PreimageShared;
    }
}

/// The payment method of a transfer.
pub open spec fn transfer_method(transfer: WalletTransfer) -> PaymentMethod {
    match transfer.transfer_type {
        TransferType::PreimageSwap => if transfer.is_ssp_transfer {
            PaymentMethod::Lightning
        } else {
            PaymentMethod::Spark
        },
        TransferType::CooperativeExit => PaymentMethod::Withdraw,
        TransferType::UtxoSwap => PaymentMethod::Deposit,
        TransferType::Transfer => PaymentMethod::Spark,
        _ => PaymentMethod::Unknown,
    }
}

impl PaymentMethod {
    pub fn from_transfer(transfer: &WalletTransfer) -> (res: PaymentMethod)
        ensures
            res == transfer_method(*transfer),
    {
        match transfer.transfer_type {
            TransferType::PreimageSwap => {
                if transfer.is_ssp_transfer {
                    PaymentMethod::Lightning
                } else {
                    PaymentMethod::Spark
                }
            },
            TransferType::CooperativeExit => PaymentMethod::Withdraw,
            TransferType::UtxoSwap => PaymentMethod::Deposit,
            TransferType::Transfer => PaymentMethod::Spark,
            _ => PaymentMethod::Unknown,
        }
    }
}

pub open spec fn htlc_status(s: PreimageRequestStatus) -> SparkHtlcStatus {
    match s {
        PreimageRequestStatus::WaitingForPreimage => SparkHtlcStatus::WaitingForPreimage,
        PreimageRequestStatus::PreimageShared => SparkHtlcStatus::PreimageShared,
        PreimageRequestStatus::Returned => SparkHtlcStatus::Returned,
    }
}

impl From<PreimageRequestStatus> for SparkHtlcStatus {
    fn from(status: PreimageRequestStatus) -> (res: SparkHtlcStatus) {
        match status {
            PreimageRequestStatus::WaitingForPreimage => SparkHtlcStatus::WaitingForPreimage,
            PreimageRequestStatus::PreimageShared => SparkHtlcStatus::PreimageShared,
            PreimageRequestStatus::Returned => SparkHtlcStatus::Returned,
        }
    }
}

impl FromSpecImpl<PreimageRequestStatus> for SparkHtlcStatus {
    open spec fn obeys_from_spec() -> bool {
        true
    }

    open spec fn from_spec(status: PreimageRequestStatus) -> SparkHtlcStatus {
        htlc_status(status)
    }
}

/// The HTLC that the operators know, with the preimage in hexadecimal.
pub open spec fn requested_htlc(r: PreimageRequest) -> Result<HtlcValue, SdkFault> {
    if r.expiry_time.spec_secs() < 0 {
        Err(
            SdkFault::Generic("Invalid expiry time: second time provided was later than self"@),
        )
    } else {
        Ok(
            HtlcValue {
                payment_hash: r.payment_hash@,
                preimage: match r.preimage {
                    Some(b) => Some(hex_text(b@)),
                    None => None,
                },
                expiry_time: r.expiry_time.spec_secs() as u64,
                status: htlc_status(r.status),
            },
        )
    }
}

impl SparkHtlcDetails {
    pub fn from_request(value: &PreimageRequest) -> (res: Result<SparkHtlcDetails, SdkError>)
        ensures
            match (res, requested_htlc(*value)) {
                (Ok(h), Ok(model)) => h@ == model,
                (Err(e), Err(f)) => e@ == f,
                _ => false,
            },
    {
        if value.expiry_time.is_before_epoch() {
            return Err(
                SdkError::Generic(
                    "Invalid expiry time: second time provided was later than self".to_string(),
                ),
            );
        }
        Ok(
            SparkHtlcDetails {
                payment_hash: value.payment_hash.clone(),
                preimage: match &value.preimage {
                    Some(b) => Some(hex_encode(b.as_slice())),
                    None => None,
                },
                expiry_time: value.expiry_time.secs_since_epoch(),
                status: SparkHtlcStatus::from(value.status),
            },
        )
    }
}

/// The HTLC of a Lightning transfer: the operators' one, reconciled with the
/// preimage that the service provider knows, or one derived from what it knows.
pub open spec fn lightning_htlc(
    transfer: WalletTransfer,
    payment_hash: Seq<char>,
    preimage: Option<Seq<char>>,
) -> Result<HtlcValue, SdkFault> {
    match transfer.htlc_preimage_request {
        Some(r) => match requested_htlc(r) {
            Ok(h) => Ok(reconciled(h, preimage)),
            Err(f) => Err(f),
        },
        None => derived_htlc(transfer, payment_hash, preimage),
    }
}

fn lightning_htlc_details(
    transfer: &WalletTransfer,
    payment_hash: &String,
    preimage: &Option<String>,
) -> (res: Result<SparkHtlcDetails, SdkError>)
    ensures
        match (res, lightning_htlc(*transfer, payment_hash@, text_option(*preimage))) {
            (Ok(h), Ok(model)) => h@ == model,
            (Err(e), Err(f)) => e@ == f,
            _ => false,
        },
{
    match &transfer.htlc_preimage_request {
        Some(r) => match SparkHtlcDetails::from_request(r) {
            Ok(h) => {
                let mut details = h;
                reconcile_htlc_preimage(&mut details, preimage);
                Ok(details)
            },
            Err(e) => Err(e),
        },
        None => derive_htlc_details_from_ssp(transfer, payment_hash, preimage),
    }
}

pub open spec fn spark_details(
    spark_invoice: Option<InvoiceTextValue>,
    spark_htlc: Option<HtlcValue>,
) -> DetailsValue {
    DetailsValue::Spark { spark_invoice, spark_htlc, spark_conversion: None }
}

pub open spec fn lightning_details(
    description: Option<Seq<char>>,
    invoice: Seq<char>,
    destination_pubkey: Seq<char>,
    htlc: HtlcValue,
) -> DetailsValue {
    DetailsValue::Lightning {
        description,
        invoice,
        destination_pubkey,
        htlc,
        lnurl_pay_info: None,
        lnurl_withdraw_info: None,
        lnurl_receive_metadata: None,
    }
}

/// The details of a transfer between users.
pub open spec fn user_transfer_details(transfer: WalletTransfer, parsed: ParsedInvoices) -> Result<
    DetailsValue,
    SdkFault,
> {
    if transfer.spark_invoice is Some {
        match parsed.spark {
            Some(d) => Ok(
                spark_details(
                    Some(
                        InvoiceTextValue {
                            description: text_option(d.description),
                            invoice: d.invoice@,
                        },
                    ),
                    None,
                ),
            ),
            None => Err(SdkFault::Generic("Invalid spark invoice"@)),
        }
    } else {
        match transfer.htlc_preimage_request {
            Some(r) => match requested_htlc(r) {
                Ok(h) => Ok(spark_details(None, Some(h))),
                Err(f) => Err(f),
            },
            None => Ok(spark_details(None, None)),
        }
    }
}

/// The details of a transfer that the service provider was asked for.
pub open spec fn ssp_transfer_details(
    transfer: WalletTransfer,
    request: SspUserRequest,
    parsed: ParsedInvoices,
) -> Result<DetailsValue, SdkFault> {
    match request {
        SspUserRequest::LightningReceiveRequest {
            encoded_invoice,
            payment_hash,
            lightning_receive_payment_preimage,
        } => match parsed.lightning {
            None => Err(
                SdkFault::Generic("Invalid invoice in SspUserRequest::LightningReceiveRequest"@),
            ),
            Some(d) => match lightning_htlc(
                transfer,
                payment_hash@,
                text_option(lightning_receive_payment_preimage),
            ) {
                Err(f) => Err(f),
                Ok(h) => Ok(
                    lightning_details(
                        text_option(d.description),
                        encoded_invoice@,
                        d.payee_pubkey@,
                        h,
                    ),
                ),
            },
        },
        SspUserRequest::LightningSendRequest {
            encoded_send_invoice,
            lightning_send_payment_preimage,
            ..
        } => match parsed.lightning {
            None => Err(
                SdkFault::Generic("Invalid invoice in SspUserRequest::LightningSendRequest"@),
            ),
            Some(d) => match lightning_htlc(
                transfer,
                d.payment_hash@,
                text_option(lightning_send_payment_preimage),
            ) {
                Err(f) => Err(f),
                Ok(h) => Ok(
                    lightning_details(
                        text_option(d.description),
                        encoded_send_invoice@,
                        d.payee_pubkey@,
                        h,
                    ),
                ),
            },
        },
        SspUserRequest::CoopExitRequest { coop_exit_txid, .. } => Ok(
            DetailsValue::Withdraw { withdraw_tx_id: coop_exit_txid@ },
        ),
        SspUserRequest::LeavesSwapRequest => Ok(spark_details(None, None)),
        SspUserRequest::ClaimStaticDeposit { transaction_id, .. } => Ok(
            DetailsValue::Deposit { deposit_tx_id: transaction_id@ },
        ),
    }
}

/// The details of a transfer. A transfer by the service provider has none until
/// what was asked of it is known.
pub open spec fn transfer_details(transfer: WalletTransfer, parsed: ParsedInvoices) -> Result<
    Option<DetailsValue>,
    SdkFault,
> {
    if !transfer.is_ssp_transfer {
        match user_transfer_details(transfer, parsed) {
            Ok(d) => Ok(Some(d)),
            Err(f) => Err(f),
        }
    } else {
        match transfer.user_request {
            None => Ok(None),
            Some(request) => match ssp_transfer_details(transfer, request, parsed) {
                Ok(d) => Ok(Some(d)),
                Err(f) => Err(f),
            },
        }
    }
}

/// An invoice that has to be read before a transfer's details can be given.
#[derive(Debug)]
pub enum InvoiceToParse {
    Spark(String),
    Lightning(String),
}

impl WalletTransfer {
    /// The invoice that has to be read for the transfer's details, if any.
    pub fn invoice_to_parse(&self) -> (res: Option<InvoiceToParse>)
        ensures
            match res {
                Some(InvoiceToParse::Spark(t)) => !self.is_ssp_transfer && self.spark_invoice
                    == Some(t),
                Some(InvoiceToParse::Lightning(t)) => self.is_ssp_transfer && match self.user_request {
                    Some(
                        SspUserRequest::LightningReceiveRequest { encoded_invoice, .. },
                    ) => encoded_invoice == t,
                    Some(
                        SspUserRequest::LightningSendRequest { encoded_send_invoice, .. },
                    ) => encoded_send_invoice == t,
                    _ => false,
                },
                None => forall|a: ParsedInvoices, b: ParsedInvoices|
                    #![trigger transfer_details(*self, a), transfer_details(*self, b)]
                    transfer_details(*self, a) == transfer_details(*self, b),
            },
    {
        if !self.is_ssp_transfer {
            match &self.spark_invoice {
                Some(t) => Some(InvoiceToParse::Spark(t.clone())),
                None => None,
            }
        } else {
            match &self.user_request {
                Some(SspUserRequest::LightningReceiveRequest { encoded_invoice, .. }) => Some(
                    InvoiceToParse::Lightning(encoded_invoice.clone()),
                ),
                Some(SspUserRequest::LightningSendRequest { encoded_send_invoice, .. }) => Some(
                    InvoiceToParse::Lightning(encoded_send_invoice.clone()),
                ),
                _ => None,
            }
        }
    }
}

impl SparkInvoicePaymentDetails {
    pub fn from_invoice(value: &SparkInvoiceDetails) -> (res: SparkInvoicePaymentDetails)
        ensures
            res.description == value.description,
            res.invoice == value.invoice,
    {
        SparkInvoicePaymentDetails {
            description: clone_text(&value.description),
            invoice: value.invoice.clone(),
        }
    }
}

impl PaymentDetails {
    fn from_user_transfer(transfer: &WalletTransfer, parsed: &ParsedInvoices) -> (res: Result<
        PaymentDetails,
        SdkError,
    >)
        ensures
            match (res, user_transfer_details(*transfer, *parsed)) {
                (Ok(d), Ok(model)) => d@ == model,
                (Err(e), Err(f)) => e@ == f,
                _ => false,
            },
    {
        if transfer.spark_invoice.is_some() {
            return match &parsed.spark {
                Some(d) => Ok(
                    PaymentDetails::Spark {
                        invoice_details: Some(SparkInvoicePaymentDetails::from_invoice(d)),
                        htlc_details: None,
                        conversion_info: None,
                    },
                ),
                None => Err(SdkError::Generic("Invalid spark invoice".to_string())),
            };
        }
        let htlc_details = match &transfer.htlc_preimage_request {
            Some(r) => match SparkHtlcDetails::from_request(r) {
                Ok(h) => Some(h),
                Err(e) => {
                    return Err(e);
                },
            },
            None => None,
        };
        Ok(PaymentDetails::Spark { invoice_details: None, htlc_details, conversion_info: None })
    }

    fn from_lightning_transfer(
        transfer: &WalletTransfer,
        invoice: &String,
        payment_hash: &String,
        preimage: &Option<String>,
        parsed: &Bolt11InvoiceDetails,
    ) -> (res: Result<PaymentDetails, SdkError>)
        ensures
            match (res, lightning_htlc(*transfer, payment_hash@, text_option(*preimage))) {
                (Ok(d), Ok(h)) => d@ == lightning_details(
                    text_option(parsed.description),
                    invoice@,
                    parsed.payee_pubkey@,
                    h,
                ),
                (Err(e), Err(f)) => e@ == f,
                _ => false,
            },
    {
        match lightning_htlc_details(transfer, payment_hash, preimage) {
            Err(e) => Err(e),
            Ok(htlc_details) => Ok(
                PaymentDetails::Lightning {
                    description: clone_text(&parsed.description),
                    invoice: invoice.clone(),
                    destination_pubkey: parsed.payee_pubkey.clone(),
                    htlc_details,
                    lnurl_pay_info: None,
                    lnurl_withdraw_info: None,
                    lnurl_receive_metadata: None,
                },
            ),
        }
    }

    /// The details of a transfer; what is read from the invoice that it names is
    /// `parsed`.
    pub fn from_transfer(transfer: &WalletTransfer, parsed: &ParsedInvoices) -> (res: Result<
        Option<PaymentDetails>,
        SdkError,
    >)
        ensures
            match (res, transfer_details(*transfer, *parsed)) {
                (Ok(Some(d)), Ok(Some(model))) => d@ == model,
                (Ok(None), Ok(None)) => true,
                (Err(e), Err(f)) => e@ == f,
                _ => false,
            },
    {
        if !transfer.is_ssp_transfer {
            return match Self::from_user_transfer(transfer, parsed) {
                Ok(d) => Ok(Some(d)),
                Err(e) => Err(e),
            };
        }
        let request = match &transfer.user_request {
            None => {
                return Ok(None);
            },
            Some(r) => r,
        };
        let details = match request {
            SspUserRequest::LightningReceiveRequest {
                encoded_invoice,
                payment_hash,
                lightning_receive_payment_preimage,
            } => match &parsed.lightning {
                None => Err(
                    SdkError::Generic(
                        "Invalid invoice in SspUserRequest::LightningReceiveRequest".to_string(),
                    ),
                ),
                Some(d) => Self::from_lightning_transfer(
                    transfer,
                    encoded_invoice,
                    payment_hash,
                    lightning_receive_payment_preimage,
                    d,
                ),
            },
            SspUserRequest::LightningSendRequest {
                encoded_send_invoice,
                lightning_send_payment_preimage,
                ..
            } => match &parsed.lightning {
                None => Err(
                    SdkError::Generic(
                        "Invalid invoice in SspUserRequest::LightningSendRequest".to_string(),
                    ),
                ),
                Some(d) => Self::from_lightning_transfer(
                    transfer,
                    encoded_send_invoice,
                    &d.payment_hash,
                    lightning_send_payment_preimage,
                    d,
                ),
            },
            SspUserRequest::CoopExitRequest { coop_exit_txid, .. } => Ok(
                PaymentDetails::Withdraw { tx_id: coop_exit_txid.clone() },
            ),
            SspUserRequest::LeavesSwapRequest => Ok(
                PaymentDetails::Spark {
                    invoice_details: None,
                    htlc_details: None,
                    conversion_info: None,
                },
            ),
            SspUserRequest::ClaimStaticDeposit { transaction_id, .. } => Ok(
                PaymentDetails::Deposit { tx_id: transaction_id.clone() },
            ),
        };
        match details {
            Ok(d) => Ok(Some(d)),
            Err(e) => Err(e),
        }
    }
}

/// Whether a transfer only moves funds within a swap.
pub open spec fn is_swap(t: TransferType) -> bool {
    t == TransferType::CounterSwap || t == TransferType::CounterSwapV3 || t == TransferType::Swap
        || t == TransferType::PrimarySwapV3
}

/// How far a payment has come by its transfer alone.
pub open spec fn transfer_status(transfer: WalletTransfer) -> PaymentStatus {
    match transfer.status {
        TransferStatus::Completed => PaymentStatus::Completed,
        TransferStatus::SenderKeyTweaked => if transfer.direction == TransferDirection::Outgoing {
            PaymentStatus::Completed
        } else {
            PaymentStatus::Pending
        },
        TransferStatus::Expired | TransferStatus::Returned => PaymentStatus::Failed,
        TransferStatus::Other => PaymentStatus::Pending,
    }
}

pub open spec fn sats_or_zero(v: Option<u64>) -> u64 {
    match v {
        Some(v) => v,
        None => 0,
    }
}

/// The difference, or zero where it would be negative.
pub open spec fn floored(v: int) -> u64 {
    if v < 0 {
        0
    } else {
        v as u64
    }
}

/// What of a transfer was the service provider's fee.
pub open spec fn transfer_fee(request: Option<SspUserRequest>) -> u64 {
    match request {
        Some(SspUserRequest::LightningSendRequest { lightning_fee, .. }) => sats_or_zero(
            lightning_fee,
        ),
        Some(SspUserRequest::CoopExitRequest { fee, l1_broadcast_fee, .. }) => capped(
            sats_or_zero(fee) + sats_or_zero(l1_broadcast_fee),
        ),
        Some(SspUserRequest::ClaimStaticDeposit { deposit_amount, credit_amount, .. }) => floored(
            sats_or_zero(deposit_amount) - sats_or_zero(credit_amount),
        ),
        _ => 0,
    }
}

/// Whether the fee was taken out of what was transferred.
pub open spec fn bears_fee(request: Option<SspUserRequest>) -> bool {
    match request {
        Some(SspUserRequest::LightningSendRequest { .. }) => true,
        Some(SspUserRequest::CoopExitRequest { .. }) => true,
        _ => false,
    }
}

/// What a transfer was worth to its receiver: what was sent over Lightning or to
/// the chain bears its fee.
pub open spec fn transfer_amount(transfer: WalletTransfer) -> u64 {
    if bears_fee(transfer.user_request) {
        floored(transfer.total_value_sat - transfer_fee(transfer.user_request))
    } else {
        transfer.total_value_sat
    }
}

/// Whether a transfer's payment is to be looked at again once the request behind
/// it is known.
pub open spec fn needs_request(t: TransferType) -> bool {
    t == TransferType::CooperativeExit || t == TransferType::PreimageSwap || t
        == TransferType::UtxoSwap
}

/// How far a payment has come: with its preimage a Lightning payment is
/// completed, and without its request a payment through the service provider is
/// not.
pub open spec fn payment_status(transfer: WalletTransfer, has_details: bool) -> PaymentStatus {
    let status = match transfer.user_request {
        Some(
            SspUserRequest::LightningSendRequest { lightning_send_payment_preimage: Some(_), .. },
        ) => PaymentStatus::Completed,
        _ => transfer_status(transfer),
    };
    if !has_details && status == PaymentStatus::Completed && needs_request(transfer.transfer_type) {
        PaymentStatus::Pending
    } else {
        status
    }
}

/// The payment that a transfer is.
pub open spec fn transfer_payment(transfer: WalletTransfer, parsed: ParsedInvoices) -> Result<
    PaymentValue,
    SdkFault,
> {
    if is_swap(transfer.transfer_type) {
        Err(SdkFault::Generic("Swap-related transfers are not considered payments"@))
    } else {
        match transfer_details(transfer, parsed) {
            Err(f) => Err(f),
            Ok(details) => Ok(
                PaymentValue {
                    id: transfer.id@,
                    payment_type: match transfer.direction {
                        TransferDirection::Incoming => PaymentType::Receive,
                        TransferDirection::Outgoing => PaymentType::Send,
                    },
                    status: payment_status(transfer, details is Some),
                    amount: if details is Some {
                        transfer_amount(transfer) as u128
                    } else {
                        transfer.total_value_sat as u128
                    },
                    fees: transfer_fee(transfer.user_request) as u128,
                    timestamp: unix_secs(transfer.created_at),
                    method: transfer_method(transfer),
                    details,
                    conversion_details: None,
                },
            ),
        }
    }
}

/// A payment is never of more than was transferred. What was sent over Lightning
/// or to the chain and its fee come to what was transferred, unless the fee was
/// more than that.
pub proof fn payments_add_up(transfer: WalletTransfer, parsed: ParsedInvoices)
    requires
        transfer_payment(transfer, parsed) is Ok,
    ensures
        transfer_payment(transfer, parsed)->Ok_0.amount <= transfer.total_value_sat,
        bears_fee(transfer.user_request) && transfer_fee(transfer.user_request)
            <= transfer.total_value_sat ==> transfer_payment(transfer, parsed)->Ok_0.amount
            + transfer_payment(transfer, parsed)->Ok_0.fees == transfer.total_value_sat,
{
}

/// A transfer without the request behind it is never reported as completed where
/// the request would say more.
pub proof fn unknown_requests_stay_pending(transfer: WalletTransfer, parsed: ParsedInvoices)
    requires
        transfer_payment(transfer, parsed) is Ok,
        transfer.is_ssp_transfer,
        transfer.user_request is None,
        needs_request(transfer.transfer_type),
    ensures
        transfer_payment(transfer, parsed)->Ok_0.status != PaymentStatus::Completed,
        transfer_payment(transfer, parsed)->Ok_0.details is None,
        transfer_payment(transfer, parsed)->Ok_0.amount == transfer.total_value_sat,
{
}

fn fee_of(request: &Option<SspUserRequest>) -> (res: u64)
    ensures
        res == transfer_fee(*request),
{
    match request {
        Some(SspUserRequest::LightningSendRequest { lightning_fee, .. }) => or_zero(*lightning_fee),
        Some(SspUserRequest::CoopExitRequest { fee, l1_broadcast_fee, .. }) => or_zero(
            *fee,
        ).saturating_add(or_zero(*l1_broadcast_fee)),
        Some(SspUserRequest::ClaimStaticDeposit { deposit_amount, credit_amount, .. }) => or_zero(
            *deposit_amount,
        ).saturating_sub(or_zero(*credit_amount)),
        _ => 0,
    }
}

fn or_zero(v: Option<u64>) -> (res: u64)
    ensures
        res == sats_or_zero(v),
{
    match v {
        Some(v) => v,
        None => 0,
    }
}

impl Payment {
    /// The payment that a transfer is; what is read from the invoice that it names
    /// is `parsed`.
    pub fn from_transfer(transfer: &WalletTransfer, parsed: &ParsedInvoices) -> (res: Result<
        Payment,
        SdkError,
    >)
        ensures
            match (res, transfer_payment(*transfer, *parsed)) {
                (Ok(p), Ok(model)) => p@ == model,
                (Err(e), Err(f)) => e@ == f,
                _ => false,
            },
            res matches Ok(p) ==> {
                &&& p.id@ == transfer.id@
                &&& p.payment_type == PaymentType::Send <==> transfer.direction
                    == TransferDirection::Outgoing
                &&& p.payment_type == PaymentType::Receive <==> transfer.direction
                    == TransferDirection::Incoming
                &&& p.amount <= transfer.total_value_sat
            },
    {
        match transfer.transfer_type {
            TransferType::CounterSwap | TransferType::CounterSwapV3 | TransferType::Swap
            | TransferType::PrimarySwapV3 => {
                return Err(
                    SdkError::Generic(
                        "Swap-related transfers are not considered payments".to_string(),
                    ),
                );
            },
            _ => {},
        }
        let payment_type = match transfer.direction {
            TransferDirection::Incoming => PaymentType::Receive,
            TransferDirection::Outgoing => PaymentType::Send,
        };
        let mut status = match transfer.status {
            TransferStatus::Completed => PaymentStatus::Completed,
            TransferStatus::SenderKeyTweaked => {
                if transfer.direction == TransferDirection::Outgoing {
                    PaymentStatus::Completed
                } else {
                    PaymentStatus::Pending
                }
            },
            TransferStatus::Expired | TransferStatus::Returned => PaymentStatus::Failed,
            TransferStatus::Other => PaymentStatus::Pending,
        };
        let fees_sat: u64 = fee_of(&transfer.user_request);
        let mut amount_sat: u64 = transfer.total_value_sat;
        match &transfer.user_request {
            Some(
                SspUserRequest::LightningSendRequest { lightning_send_payment_preimage, .. },
            ) => {
                if lightning_send_payment_preimage.is_some() {
                    status = PaymentStatus::Completed;
                }
                amount_sat = amount_sat.saturating_sub(fees_sat);
            },
            Some(SspUserRequest::CoopExitRequest { .. }) => {
                amount_sat = amount_sat.saturating_sub(fees_sat);
            },
            _ => {},
        }
        let details = match PaymentDetails::from_transfer(transfer, parsed) {
            Ok(d) => d,
            Err(e) => {
                return Err(e);
            },
        };
        if details.is_none() {
            let awaits_request = match transfer.transfer_type {
                TransferType::CooperativeExit
                | TransferType::PreimageSwap
                | TransferType::UtxoSwap => true,
                _ => false,
            };
            if status == PaymentStatus::Completed && awaits_request {
                status = PaymentStatus::Pending;
            }
            amount_sat = transfer.total_value_sat;
        }
        Ok(
            Payment {
                id: transfer.id.clone(),
                payment_type,
                status,
                amount: amount_sat as u128,
                fees: fees_sat as u128,
                timestamp: secs_of(&transfer.created_at),
                method: PaymentMethod::from_transfer(transfer),
                details,
                conversion_details: None,
            },
        )
    }
}

/// How far the service provider has come with a Lightning payment.
#[derive(Clone, Copy, Debug, PartialEq, Eq, Structural)]
pub enum LightningSendStatus {
    LightningPaymentSucceeded,
    LightningPaymentFailed,
    TransferFailed,
    PreimageProvidingFailed,
    UserSwapReturnFailed,
    UserSwapReturned,
    Other,
}

/// A Lightning payment as the service provider knows it.
#[derive(Debug)]
pub struct LightningSendPayment {
    pub encoded_invoice: String,
    pub status: LightningSendStatus,
    pub payment_preimage: Option<String>,
    pub fee_sat: u64,
    pub created_at: i64,
}

/// How far a Lightning payment has come: with its preimage it is completed.
pub open spec fn lightning_status(p: LightningSendPayment) -> PaymentStatus {
    if p.payment_preimage is Some {
        PaymentStatus::Completed
    } else {
        match p.status {
            LightningSendStatus::LightningPaymentSucceeded => PaymentStatus::Completed,
            LightningSendStatus::Other => PaymentStatus::Pending,
            _ => PaymentStatus::Failed,
        }
    }
}

/// The payment that a Lightning payment is. Its HTLC may be stale and is
/// reconciled with the payment's preimage.
pub open spec fn lightning_payment(
    p: LightningSendPayment,
    amount: u128,
    transfer_id: Seq<char>,
    htlc: HtlcValue,
    parsed: Option<Bolt11InvoiceDetails>,
) -> Result<PaymentValue, SdkFault> {
    match parsed {
        None => Err(SdkFault::Generic("Invalid invoice in LightnintSendPayment"@)),
        Some(d) => Ok(
            PaymentValue {
                id: transfer_id,
                payment_type: PaymentType::Send,
                status: lightning_status(p),
                amount,
                fees: p.fee_sat as u128,
                timestamp: unsigned64(p.created_at as int) as u64,
                method: PaymentMethod::Lightning,
                details: Some(
                    lightning_details(
                        text_option(d.description),
                        p.encoded_invoice@,
                        d.payee_pubkey@,
                        reconciled(htlc, text_option(p.payment_preimage)),
                    ),
                ),
                conversion_details: None,
            },
        ),
    }
}

impl Payment {
    /// The payment that a Lightning payment is; what is read from its invoice is
    /// `parsed`.
    pub fn from_lightning(
        payment: LightningSendPayment,
        amount_sat: u128,
        transfer_id: String,
        htlc_details: SparkHtlcDetails,
        parsed: Option<Bolt11InvoiceDetails>,
    ) -> (res: Result<Payment, SdkError>)
        ensures
            match (
                res,
                lightning_payment(payment, amount_sat, transfer_id@, htlc_details@, parsed),
            ) {
                (Ok(p), Ok(model)) => p@ == model,
                (Err(e), Err(f)) => e@ == f,
                _ => false,
            },
            res is Ok <==> parsed is Some,
            res matches Ok(p) ==> {
                &&& p.id@ == transfer_id@
                &&& p.payment_type == PaymentType::Send
                &&& p.method == PaymentMethod::Lightning
                &&& p.details matches Some(PaymentDetails::Lightning { .. })
                &&& p.amount == amount_sat
                &&& p.fees == payment.fee_sat
            },
    {
        let mut status = match payment.status {
            LightningSendStatus::LightningPaymentSucceeded => PaymentStatus::Completed,
            LightningSendStatus::LightningPaymentFailed
            | LightningSendStatus::TransferFailed
            | LightningSendStatus::PreimageProvidingFailed
            | LightningSendStatus::UserSwapReturnFailed
            | LightningSendStatus::UserSwapReturned => PaymentStatus::Failed,
            LightningSendStatus::Other => PaymentStatus::Pending,
        };
        if payment.payment_preimage.is_some() {
            status = PaymentStatus::Completed;
        }
        let mut htlc = htlc_details;
        reconcile_htlc_preimage(&mut htlc, &payment.payment_preimage);
        let invoice_details = match parsed {
            Some(d) => d,
            None => {
                return Err(
                    SdkError::Generic("Invalid invoice in LightnintSendPayment".to_string()),
                );
            },
        };
        let timestamp: u64 = if payment.created_at >= 0 {
            payment.created_at as u64
        } else {
            u64::MAX - (-(payment.created_at + 1)) as u64
        };
        let details = PaymentDetails::Lightning {
            description: invoice_details.description,
            invoice: payment.encoded_invoice,
            destination_pubkey: invoice_details.payee_pubkey,
            htlc_details: htlc,
            lnurl_pay_info: None,
            lnurl_withdraw_info: None,
            lnurl_receive_metadata: None,
        };
        Ok(
            Payment {
                id: transfer_id,
                payment_type: PaymentType::Send,
                status,
                amount: amount_sat,
                fees: payment.fee_sat as u128,
                timestamp,
                method: PaymentMethod::Lightning,
                details: Some(details),
                conversion_details: None,
            },
        )
    }
}

/// How far a token transaction has come.
#[derive(Clone, Copy, Debug, PartialEq, Eq, Structural)]
pub enum TokenTransactionStatus {
    Started,
    Signed,
    Finalized,
    StartedCancelled,
    SignedCancelled,
    Revealed,
    Unknown,
}

impl PaymentStatus {
    /// The status of a payment by its token transaction. A signed transaction is
    /// complete unless it is a transfer, which still has to be finalized.
    pub fn from_token_transaction_status(
        status: TokenTransactionStatus,
        is_transfer_transaction: bool,
    ) -> (res: PaymentStatus)
        ensures
            res == match status {
                TokenTransactionStatus::Started
                | TokenTransactionStatus::Revealed
                | TokenTransactionStatus::Unknown => PaymentStatus::Pending,
                TokenTransactionStatus::Signed => if is_transfer_transaction {
                    PaymentStatus::Pending
                } else {
                    PaymentStatus::Completed
                },
                TokenTransactionStatus::Finalized => PaymentStatus::Completed,
                TokenTransactionStatus::StartedCancelled
                | TokenTransactionStatus::SignedCancelled => PaymentStatus::Failed,
            },
            res == PaymentStatus::Completed <==> status == TokenTransactionStatus::Finalized || (
            status == TokenTransactionStatus::Signed && !is_transfer_transaction),
            res == PaymentStatus::Failed <==> status == TokenTransactionStatus::StartedCancelled
                || status == TokenTransactionStatus::SignedCancelled,
    {
        match status {
            TokenTransactionStatus::Started
            | TokenTransactionStatus::Revealed
            | TokenTransactionStatus::Unknown => PaymentStatus::Pending,
            TokenTransactionStatus::Signed => {
                if is_transfer_transaction {
                    PaymentStatus::Pending
                } else {
                    PaymentStatus::Completed
                }
            },
            TokenTransactionStatus::Finalized => PaymentStatus::Completed,
            TokenTransactionStatus::StartedCancelled
            | TokenTransactionStatus::SignedCancelled => PaymentStatus::Failed,
        }
    }
}

/// A token as the wallet knows it.
pub struct WalletTokenMetadata {
    pub identifier: String,
    pub issuer_public_key: PublicKey,
    pub name: String,
    pub ticker: String,
    pub decimals: u32,
    pub max_supply: u128,
    pub is_freezable: bool,
}

/// A token balance as the wallet knows it.
pub struct WalletTokenBalance {
    pub balance: u128,
    pub token_metadata: WalletTokenMetadata,
}

/// Whether token metadata is the wallet's, with the issuer's key in hexadecimal.
pub open spec fn is_metadata_of(m: TokenMetadata, w: WalletTokenMetadata) -> bool {
    &&& m.issuer_public_key@ == hex_text(w.issuer_public_key@)
    &&& m == TokenMetadata {
        identifier: w.identifier,
        issuer_public_key: m.issuer_public_key,
        name: w.name,
        ticker: w.ticker,
        decimals: w.decimals,
        max_supply: w.max_supply,
        is_freezable: w.is_freezable,
    }
}

impl TokenMetadata {
    pub fn from_wallet(value: WalletTokenMetadata) -> (res: TokenMetadata)
        ensures
            is_metadata_of(res, value),
    {
        let issuer_public_key = hex_encode(value.issuer_public_key.serialize().as_slice());
        TokenMetadata {
            identifier: value.identifier,
            issuer_public_key,
            name: value.name,
            ticker: value.ticker,
            decimals: value.decimals,
            max_supply: value.max_supply,
            is_freezable: value.is_freezable,
        }
    }
}

impl TokenBalance {
    pub fn from_wallet(value: WalletTokenBalance) -> (res: TokenBalance)
        ensures
            res.balance == value.balance,
            is_metadata_of(res.token_metadata, value.token_metadata),
    {
        TokenBalance {
            balance: value.balance,
            token_metadata: TokenMetadata::from_wallet(value.token_metadata),
        }
    }
}

/// How far the wallet has come with rearranging its leaves.
pub struct WalletOptimizationProgress {
    pub is_running: bool,
    pub current_round: u32,
    pub total_rounds: u32,
}

impl From<WalletOptimizationProgress> for OptimizationProgress {
    fn from(value: WalletOptimizationProgress) -> (res: OptimizationProgress) {
        OptimizationProgress {
            is_running: value.is_running,
            current_round: value.current_round,
            total_rounds: value.total_rounds,
        }
    }
}

impl FromSpecImpl<WalletOptimizationProgress> for OptimizationProgress {
    open spec fn obeys_from_spec() -> bool {
        true
    }

    open spec fn from_spec(value: WalletOptimizationProgress) -> OptimizationProgress {
        OptimizationProgress {
            is_running: value.is_running,
            current_round: value.current_round,
            total_rounds: value.total_rounds,
        }
    }
}

/// What a webhook is called for, as the wallet names it.
#[derive(Debug, PartialEq, Eq)]
pub enum SparkWalletWebhookEventType {
    SparkLightningReceiveFinished,
    SparkLightningSendFinished,
    SparkCoopExitFinished,
    SparkStaticDepositFinished,
    Unknown(String),
}

/// A webhook as the wallet knows it.
pub struct WebhookEntry {
    pub webhook_id: String,
    pub url: String,
    pub event_types: Vec<SparkWalletWebhookEventType>,
}

pub open spec fn wallet_event(e: WebhookEventType) -> SparkWalletWebhookEventType {
    match e {
        WebhookEventType::LightningReceiveFinished => {
            SparkWalletWebhookEventType::SparkLightningReceiveFinished
        },
        WebhookEventType::LightningSendFinished => {
            SparkWalletWebhookEventType::SparkLightningSendFinished
        },
        WebhookEventType::CoopExitFinished => SparkWalletWebhookEventType::SparkCoopExitFinished,
        WebhookEventType::StaticDepositFinished => {
            SparkWalletWebhookEventType::SparkStaticDepositFinished
        },
        WebhookEventType::Unknown(s) => SparkWalletWebhookEventType::Unknown(s),
    }
}

pub open spec fn sdk_event(e: SparkWalletWebhookEventType) -> WebhookEventType {
    match e {
        SparkWalletWebhookEventType::SparkLightningReceiveFinished => {
            WebhookEventType::LightningReceiveFinished
        },
        SparkWalletWebhookEventType::SparkLightningSendFinished => {
            WebhookEventType::LightningSendFinished
        },
        SparkWalletWebhookEventType::SparkCoopExitFinished => WebhookEventType::CoopExitFinished,
        SparkWalletWebhookEventType::SparkStaticDepositFinished => {
            WebhookEventType::StaticDepositFinished
        },
        SparkWalletWebhookEventType::Unknown(s) => WebhookEventType::Unknown(s),
    }
}

/// Events are the same in both vocabularies.
pub proof fn events_convert_back(a: WebhookEventType, b: SparkWalletWebhookEventType)
    ensures
        sdk_event(wallet_event(a)) == a,
        wallet_event(sdk_event(b)) == b,
{
}

impl From<WebhookEventType> for SparkWalletWebhookEventType {
    fn from(value: WebhookEventType) -> (res: SparkWalletWebhookEventType) {
        match value {
            WebhookEventType::LightningReceiveFinished => {
                SparkWalletWebhookEventType::SparkLightningReceiveFinished
            },
            WebhookEventType::LightningSendFinished => {
                SparkWalletWebhookEventType::SparkLightningSendFinished
            },
            WebhookEventType::CoopExitFinished => SparkWalletWebhookEventType::SparkCoopExitFinished,
            WebhookEventType::StaticDepositFinished => {
                SparkWalletWebhookEventType::SparkStaticDepositFinished
            },
            WebhookEventType::Unknown(s) => SparkWalletWebhookEventType::Unknown(s),
        }
    }
}

impl FromSpecImpl<WebhookEventType> for SparkWalletWebhookEventType {
    open spec fn obeys_from_spec() -> bool {
        true
    }

    open spec fn from_spec(value: WebhookEventType) -> SparkWalletWebhookEventType {
        wallet_event(value)
    }
}

impl From<SparkWalletWebhookEventType> for WebhookEventType {
    fn from(value: SparkWalletWebhookEventType) -> (res: WebhookEventType) {
        match value {
            SparkWalletWebhookEventType::SparkLightningReceiveFinished => {
                WebhookEventType::LightningReceiveFinished
            },
            SparkWalletWebhookEventType::SparkLightningSendFinished => {
                WebhookEventType::LightningSendFinished
            },
            SparkWalletWebhookEventType::SparkCoopExitFinished => WebhookEventType::CoopExitFinished,
            SparkWalletWebhookEventType::SparkStaticDepositFinished => {
                WebhookEventType::StaticDepositFinished
            },
            SparkWalletWebhookEventType::Unknown(s) => WebhookEventType::Unknown(s),
        }
    }
}

impl FromSpecImpl<SparkWalletWebhookEventType> for WebhookEventType {
    open spec fn obeys_from_spec() -> bool {
        true
    }

    open spec fn from_spec(value: SparkWalletWebhookEventType) -> WebhookEventType {
        sdk_event(value)
    }
}

impl Clone for SparkWalletWebhookEventType {
    fn clone(&self) -> (res: SparkWalletWebhookEventType)
        ensures
            res == *self,
    {
        match self {
            SparkWalletWebhookEventType::SparkLightningReceiveFinished => {
                SparkWalletWebhookEventType::SparkLightningReceiveFinished
            },
            SparkWalletWebhookEventType::SparkLightningSendFinished => {
                SparkWalletWebhookEventType::SparkLightningSendFinished
            },
            SparkWalletWebhookEventType::SparkCoopExitFinished => {
                SparkWalletWebhookEventType::SparkCoopExitFinished
            },
            SparkWalletWebhookEventType::SparkStaticDepositFinished => {
                SparkWalletWebhookEventType::SparkStaticDepositFinished
            },
            SparkWalletWebhookEventType::Unknown(s) => SparkWalletWebhookEventType::Unknown(
                s.clone(),
            ),
        }
    }
}

impl Webhook {
    pub fn from_entry(value: WebhookEntry) -> (res: Webhook)
        ensures
            res.id == value.webhook_id,
            res.url == value.url,
            res.event_types@ == value.event_types@.map_values(
                |e: SparkWalletWebhookEventType| sdk_event(e),
            ),
    {
        let mut event_types: Vec<WebhookEventType> = Vec::new();
        let mut i: usize = 0;
        while i < value.event_types.len()
            invariant
                i <= value.event_types@.len(),
                event_types@.len() == i,
                forall|k: int|
                    0 <= k < i ==> #[trigger] event_types@[k] == sdk_event(value.event_types@[k]),
            decreases value.event_types@.len() - i,
        {
            event_types.push(WebhookEventType::from(value.event_types[i].clone()));
            i = i + 1;
        }
        assert(event_types@ =~= value.event_types@.map_values(
            |e: SparkWalletWebhookEventType| sdk_event(e),
        ));
        Webhook { id: value.webhook_id, url: value.url, event_types }
    }
}

/// Who a payment is from, when it was made and by which method is told by its
/// transfer: what goes out is sent, what comes in is received.
pub proof fn payments_follow_their_transfer(transfer: WalletTransfer, parsed: ParsedInvoices)
    requires
        transfer_payment(transfer, parsed) is Ok,
    ensures
        ({
            let p = transfer_payment(transfer, parsed)->Ok_0;
            &&& p.id == transfer.id@
            &&& p.payment_type == PaymentType::Send <==> transfer.direction
                == TransferDirection::Outgoing
            &&& p.payment_type == PaymentType::Receive <==> transfer.direction
                == TransferDirection::Incoming
            &&& p.conversion_details is None
            &&& p.timestamp == match transfer.created_at {
                Some(t) => if t.spec_secs() >= 0 {
                    t.spec_secs()
                } else {
                    0
                },
                None => 0,
            }
            &&& p.method == PaymentMethod::Lightning <==> transfer.transfer_type
                == TransferType::PreimageSwap && transfer.is_ssp_transfer
            &&& p.method == PaymentMethod::Spark <==> transfer.transfer_type
                == TransferType::Transfer || (transfer.transfer_type == TransferType::PreimageSwap
                && !transfer.is_ssp_transfer)
            &&& p.method == PaymentMethod::Withdraw <==> transfer.transfer_type
                == TransferType::CooperativeExit
            &&& p.method == PaymentMethod::Deposit <==> transfer.transfer_type
                == TransferType::UtxoSwap
            &&& p.method == PaymentMethod::Unknown <==> transfer.transfer_type
                == TransferType::Other
            &&& p.method != PaymentMethod::Token
        }),
{
    if let Some(t) = transfer.created_at {
        t.secs_fit();
    }
}

/// Swaps, and they alone, are refused whatever was read from invoices.
pub proof fn swaps_are_no_payments(transfer: WalletTransfer, parsed: ParsedInvoices)
    ensures
        (transfer.transfer_type == TransferType::CounterSwap || transfer.transfer_type
            == TransferType::CounterSwapV3 || transfer.transfer_type == TransferType::Swap
            || transfer.transfer_type == TransferType::PrimarySwapV3) ==> transfer_payment(
            transfer,
            parsed,
        ) == Err::<PaymentValue, SdkFault>(
            SdkFault::Generic("Swap-related transfers are not considered payments"@),
        ),
        (transfer.transfer_type == TransferType::PreimageSwap || transfer.transfer_type
            == TransferType::CooperativeExit || transfer.transfer_type == TransferType::UtxoSwap
            || transfer.transfer_type == TransferType::Transfer || transfer.transfer_type
            == TransferType::Other) ==> (transfer_payment(transfer, parsed) is Ok
            <==> transfer_details(transfer, parsed) is Ok),
{
}

/// Whether the preimage of a Lightning payment is known.
pub open spec fn knows_sent_preimage(request: Option<SspUserRequest>) -> bool {
    request matches Some(
        SspUserRequest::LightningSendRequest { lightning_send_payment_preimage: Some(_), .. },
    )
}

/// A payment has failed exactly where its transfer has expired or was returned and no
/// preimage shows otherwise. It is completed exactly where its transfer is, for the
/// sender once the keys are tweaked, or where the preimage is known; but not while a
/// request that would tell more is missing.
pub proof fn statuses_follow_their_transfer(transfer: WalletTransfer, parsed: ParsedInvoices)
    requires
        transfer_payment(transfer, parsed) is Ok,
    ensures
        ({
            let p = transfer_payment(transfer, parsed)->Ok_0;
            let preimage = knows_sent_preimage(transfer.user_request);
            let missing = transfer.is_ssp_transfer && transfer.user_request is None && (
            transfer.transfer_type == TransferType::CooperativeExit || transfer.transfer_type
                == TransferType::PreimageSwap || transfer.transfer_type == TransferType::UtxoSwap);
            let done = transfer.status == TransferStatus::Completed || (transfer.status
                == TransferStatus::SenderKeyTweaked && transfer.direction
                == TransferDirection::Outgoing);
            let lost = transfer.status == TransferStatus::Expired || transfer.status
                == TransferStatus::Returned;
            &&& p.status == PaymentStatus::Failed <==> lost && !preimage
            &&& p.status == PaymentStatus::Completed <==> (done || preimage) && !missing
            &&& p.details is None <==> transfer.is_ssp_transfer && transfer.user_request is None
        }),
{
}

/// What a payment cost, by what was asked of the service provider: the fee of what was
/// sent over Lightning; the fee and the broadcast of what left to the chain; and what
/// is missing of a deposit once it is credited. Nothing else costs anything.
pub proof fn fees_follow_their_request(transfer: WalletTransfer, parsed: ParsedInvoices)
    requires
        transfer_payment(transfer, parsed) is Ok,
    ensures
        ({
            let p = transfer_payment(transfer, parsed)->Ok_0;
            let total = transfer.total_value_sat;
            match transfer.user_request {
                Some(SspUserRequest::LightningSendRequest { lightning_fee, .. }) => {
                    &&& lightning_fee matches Some(fee) ==> p.fees == fee
                    &&& lightning_fee is None ==> p.fees == 0
                    &&& p.fees <= total ==> p.amount == total - p.fees
                    &&& p.fees > total ==> p.amount == 0
                },
                Some(SspUserRequest::CoopExitRequest { fee, l1_broadcast_fee, .. }) => {
                    let sum = (if fee is Some {
                        fee->0 as int
                    } else {
                        0
                    }) + (if l1_broadcast_fee is Some {
                        l1_broadcast_fee->0 as int
                    } else {
                        0
                    });
                    &&& sum <= u64::MAX ==> p.fees == sum
                    &&& sum > u64::MAX ==> p.fees == u64::MAX
                    &&& p.fees <= total ==> p.amount == total - p.fees
                    &&& p.fees > total ==> p.amount == 0
                },
                Some(SspUserRequest::ClaimStaticDeposit { deposit_amount, credit_amount, .. }) => {
                    let left = (if deposit_amount is Some {
                        deposit_amount->0 as int
                    } else {
                        0
                    }) - (if credit_amount is Some {
                        credit_amount->0 as int
                    } else {
                        0
                    });
                    &&& left >= 0 ==> p.fees == left
                    &&& left < 0 ==> p.fees == 0
                    &&& p.amount == total
                },
                _ => p.fees == 0 && p.amount == total,
            }
        }),
{
}

/// The details of a transfer between users: the invoice it paid as it was read, or the
/// operators' HTLC, or neither.
pub proof fn user_details_follow_their_transfer(transfer: WalletTransfer, parsed: ParsedInvoices)
    requires
        !transfer.is_ssp_transfer,
    ensures
        match (transfer.spark_invoice, parsed.spark) {
            (Some(_), Some(d)) => transfer_details(transfer, parsed) == Ok::<
                Option<DetailsValue>,
                SdkFault,
            >(
                Some(
                    DetailsValue::Spark {
                        spark_invoice: Some(
                            InvoiceTextValue {
                                description: text_option(d.description),
                                invoice: d.invoice@,
                            },
                        ),
                        spark_htlc: None,
                        spark_conversion: None,
                    },
                ),
            ),
            (Some(_), None) => transfer_details(transfer, parsed) == Err::<
                Option<DetailsValue>,
                SdkFault,
            >(SdkFault::Generic("Invalid spark invoice"@)),
            (None, _) => match transfer.htlc_preimage_request {
                None => transfer_details(transfer, parsed) == Ok::<Option<DetailsValue>, SdkFault>(
                    Some(
                        DetailsValue::Spark {
                            spark_invoice: None,
                            spark_htlc: None,
                            spark_conversion: None,
                        },
                    ),
                ),
                Some(r) => {
                    &&& transfer_details(transfer, parsed) is Ok <==> requested_htlc(r) is Ok
                    &&& requested_htlc(r) matches Ok(h) ==> transfer_details(transfer, parsed)
                        == Ok::<Option<DetailsValue>, SdkFault>(
                        Some(
                            DetailsValue::Spark {
                                spark_invoice: None,
                                spark_htlc: Some(h),
                                spark_conversion: None,
                            },
                        ),
                    )
                },
            },
        },
{
}

/// The details of a transfer by the service provider: of a Lightning payment the
/// request's invoice, what was read of it, and an HTLC; of others the transaction.
pub proof fn ssp_details_follow_their_request(transfer: WalletTransfer, parsed: ParsedInvoices)
    requires
        transfer.is_ssp_transfer,
        transfer_details(transfer, parsed) is Ok,
        transfer.user_request is Some,
    ensures
        match (transfer.user_request->0, transfer_details(transfer, parsed)->Ok_0->0) {
            (
                SspUserRequest::LightningReceiveRequest {
                    encoded_invoice,
                    payment_hash,
                    lightning_receive_payment_preimage,
                },
                DetailsValue::Lightning {
                    description,
                    invoice,
                    destination_pubkey,
                    htlc,
                    lnurl_pay_info,
                    lnurl_withdraw_info,
                    lnurl_receive_metadata,
                },
            ) => {
                &&& invoice == encoded_invoice@
                &&& parsed.lightning matches Some(d)
                &&& description == text_option(d.description)
                &&& destination_pubkey == d.payee_pubkey@
                &&& lnurl_pay_info is None
                &&& lnurl_withdraw_info is None
                &&& lnurl_receive_metadata is None
                &&& htlc.payment_hash == match transfer.htlc_preimage_request {
                    Some(r) => r.payment_hash@,
                    None => payment_hash@,
                }
                &&& lightning_receive_payment_preimage is Some ==> htlc.preimage is Some
                &&& transfer.htlc_preimage_request is None ==> htlc.preimage == text_option(
                    lightning_receive_payment_preimage,
                )
            },
            (
                SspUserRequest::LightningSendRequest {
                    encoded_send_invoice,
                    lightning_send_payment_preimage,
                    ..
                },
                DetailsValue::Lightning {
                    description,
                    invoice,
                    destination_pubkey,
                    htlc,
                    lnurl_pay_info,
                    lnurl_withdraw_info,
                    lnurl_receive_metadata,
                },
            ) => {
                &&& invoice == encoded_send_invoice@
                &&& parsed.lightning matches Some(d)
                &&& description == text_option(d.description)
                &&& destination_pubkey == d.payee_pubkey@
                &&& lnurl_pay_info is None
                &&& lnurl_withdraw_info is None
                &&& lnurl_receive_metadata is None
                &&& htlc.payment_hash == match transfer.htlc_preimage_request {
                    Some(r) => r.payment_hash@,
                    None => d.payment_hash@,
                }
                &&& lightning_send_payment_preimage is Some ==> htlc.preimage is Some
                &&& transfer.htlc_preimage_request is None ==> htlc.preimage == text_option(
                    lightning_send_payment_preimage,
                )
            },
            (
                SspUserRequest::CoopExitRequest { coop_exit_txid, .. },
                DetailsValue::Withdraw { withdraw_tx_id },
            ) => withdraw_tx_id == coop_exit_txid@,
            (
                SspUserRequest::ClaimStaticDeposit { transaction_id, .. },
                DetailsValue::Deposit { deposit_tx_id },
            ) => deposit_tx_id == transaction_id@,
            (
                SspUserRequest::LeavesSwapRequest,
                DetailsValue::Spark { spark_invoice, spark_htlc, spark_conversion },
            ) => spark_invoice is None && spark_htlc is None && spark_conversion is None,
            _ => false,
        },
{
}

/// When a transfer has an HTLC of its own, it is the one that counts, with the service
/// provider's preimage where it has none; otherwise one is derived from what the
/// service provider knows.
pub proof fn lightning_htlcs_are_reconciled(
    transfer: WalletTransfer,
    payment_hash: Seq<char>,
    preimage: Option<Seq<char>>,
)
    ensures
        match transfer.htlc_preimage_request {
            Some(r) => match (requested_htlc(r), lightning_htlc(transfer, payment_hash, preimage)) {
                (Ok(own), Ok(h)) => {
                    &&& h.payment_hash == own.payment_hash
                    &&& h.expiry_time == own.expiry_time
                    &&& own.preimage is Some ==> h.preimage == own.preimage
                    &&& own.preimage is None ==> h.preimage == preimage
                    &&& h.preimage is Some ==> h.status == SparkHtlcStatus::PreimageShared
                    &&& h.preimage is None ==> h.status == own.status
                },
                (Err(e), Err(f)) => e == f,
                _ => false,
            },
            None => lightning_htlc(transfer, payment_hash, preimage) == derived_htlc(
                transfer,
                payment_hash,
                preimage,
            ),
        },
{
}

/// An HTLC is derived for transfers from before February 2026, or from an unknown
/// time, and for no others. It is shared where the transfer is completed, returned
/// where the transfer has expired or was returned, and waiting otherwise.
pub proof fn derived_htlcs_are_of_old_transfers(
    transfer: WalletTransfer,
    payment_hash: Seq<char>,
    preimage: Option<Seq<char>>,
)
    ensures
        derived_htlc(transfer, payment_hash, preimage) is Ok <==> (transfer.created_at matches Some(
            t,
        ) ==> t.spec_secs() < 1_769_904_000),
        derived_htlc(transfer, payment_hash, preimage) matches Err(f) ==> f == SdkFault::Generic(
            "Missing HTLC details for Lightning payment transfer "@ + transfer.id@,
        ),
        derived_htlc(transfer, payment_hash, preimage) matches Ok(h) ==> {
            &&& h.payment_hash == payment_hash
            &&& h.preimage == preimage
            &&& h.status == SparkHtlcStatus::PreimageShared <==> transfer.status
                == TransferStatus::Completed
            &&& h.status == SparkHtlcStatus::Returned <==> transfer.status
                == TransferStatus::Expired || transfer.status == TransferStatus::Returned
            &&& transfer.expiry_time is None ==> h.expiry_time == 0
            &&& transfer.expiry_time matches Some(t) ==> {
                &&& t.spec_secs() >= 0 ==> h.expiry_time == t.spec_secs()
                &&& t.spec_secs() < 0 ==> h.expiry_time == 0
            }
        },
{
    if let Some(t) = transfer.expiry_time {
        t.secs_fit();
    }
}

/// The operators' HTLC keeps its hash, its expiry and its status, and its preimage in
/// hexadecimal. One that expires before the Unix epoch is refused.
pub proof fn requested_htlcs_are_kept(r: PreimageRequest)
    ensures
        requested_htlc(r) is Ok <==> r.expiry_time.spec_secs() >= 0,
        requested_htlc(r) matches Ok(h) ==> {
            &&& h.payment_hash == r.payment_hash@
            &&& h.expiry_time == r.expiry_time.spec_secs()
            &&& r.preimage is None ==> h.preimage is None
            &&& r.preimage matches Some(b) ==> h.preimage == Some(hex_text(b@))
            &&& h.status == SparkHtlcStatus::WaitingForPreimage <==> r.status
                == PreimageRequestStatus::WaitingForPreimage
            &&& h.status == SparkHtlcStatus::PreimageShared <==> r.status
                == PreimageRequestStatus::PreimageShared
            &&& h.status == SparkHtlcStatus::Returned <==> r.status
                == PreimageRequestStatus::Returned
        },
{
    r.expiry_time.secs_fit();
}

/// What becomes of a Lightning payment: it is sent, by Lightning, at its own fee, with
/// its own invoice. It is completed where it has succeeded or its preimage is known,
/// and failed where it has failed or was returned and no preimage is known.
pub proof fn lightning_payments_are_sent(
    p: LightningSendPayment,
    amount: u128,
    transfer_id: Seq<char>,
    htlc: HtlcValue,
    parsed: Option<Bolt11InvoiceDetails>,
)
    ensures
        lightning_payment(p, amount, transfer_id, htlc, parsed) is Ok <==> parsed is Some,
        lightning_payment(p, amount, transfer_id, htlc, parsed) matches Ok(v) ==> {
            let known = p.payment_preimage is Some;
            &&& v.id == transfer_id
            &&& v.payment_type == PaymentType::Send
            &&& v.method == PaymentMethod::Lightning
            &&& v.amount == amount
            &&& v.fees == p.fee_sat
            &&& p.created_at >= 0 ==> v.timestamp == p.created_at
            &&& p.created_at < 0 ==> v.timestamp == p.created_at + 0x1_0000_0000_0000_0000
            &&& v.conversion_details is None
            &&& v.status == PaymentStatus::Completed <==> known || p.status
                == LightningSendStatus::LightningPaymentSucceeded
            &&& v.status == PaymentStatus::Pending <==> !known && p.status
                == LightningSendStatus::Other
            &&& v.details matches Some(
                DetailsValue::Lightning {
                    description,
                    invoice,
                    destination_pubkey,
                    htlc: kept,
                    lnurl_pay_info,
                    lnurl_withdraw_info,
                    lnurl_receive_metadata,
                },
            )
            &&& description == text_option(parsed->0.description)
            &&& invoice == p.encoded_invoice@
            &&& destination_pubkey == parsed->0.payee_pubkey@
            &&& lnurl_pay_info is None
            &&& lnurl_withdraw_info is None
            &&& lnurl_receive_metadata is None
            &&& kept.payment_hash == htlc.payment_hash
            &&& kept.expiry_time == htlc.expiry_time
            &&& htlc.preimage is Some ==> kept.preimage == htlc.preimage
            &&& htlc.preimage is None ==> kept.preimage == text_option(p.payment_preimage)
            &&& kept.preimage is Some ==> kept.status == SparkHtlcStatus::PreimageShared
            &&& kept.preimage is None ==> kept.status == htlc.status
        },
{
}

/// Each event has one name in each vocabulary.
pub proof fn events_keep_their_meaning(text: String)
    ensures
        wallet_event(WebhookEventType::LightningReceiveFinished)
            == SparkWalletWebhookEventType::SparkLightningReceiveFinished,
        wallet_event(WebhookEventType::LightningSendFinished)
            == SparkWalletWebhookEventType::SparkLightningSendFinished,
        wallet_event(WebhookEventType::CoopExitFinished)
            == SparkWalletWebhookEventType::SparkCoopExitFinished,
        wallet_event(WebhookEventType::StaticDepositFinished)
            == SparkWalletWebhookEventType::SparkStaticDepositFinished,
        wallet_event(WebhookEventType::Unknown(text)) == SparkWalletWebhookEventType::Unknown(text),
        sdk_event(SparkWalletWebhookEventType::SparkLightningReceiveFinished)
            == WebhookEventType::LightningReceiveFinished,
        sdk_event(SparkWalletWebhookEventType::SparkLightningSendFinished)
            == WebhookEventType::LightningSendFinished,
        sdk_event(SparkWalletWebhookEventType::SparkCoopExitFinished)
            == WebhookEventType::CoopExitFinished,
        sdk_event(SparkWalletWebhookEventType::SparkStaticDepositFinished)
            == WebhookEventType::StaticDepositFinished,
        sdk_event(SparkWalletWebhookEventType::Unknown(text)) == WebhookEventType::Unknown(text),
{
}

/// Converted statuses, events and progress are what the conversions state of them.
pub proof fn conversions_keep_their_meaning(
    status: PreimageRequestStatus,
    a: WebhookEventType,
    b: SparkWalletWebhookEventType,
    progress: WalletOptimizationProgress,
)
    ensures
        <SparkHtlcStatus as FromSpec<PreimageRequestStatus>>::from_spec(status) == htlc_status(
            status,
        ),
        <SparkWalletWebhookEventType as FromSpec<WebhookEventType>>::from_spec(a) == wallet_event(
            a,
        ),
        <WebhookEventType as FromSpec<SparkWalletWebhookEventType>>::from_spec(b) == sdk_event(b),
        <OptimizationProgress as FromSpec<WalletOptimizationProgress>>::from_spec(
            progress,
        ).is_running == progress.is_running,
        <OptimizationProgress as FromSpec<WalletOptimizationProgress>>::from_spec(
            progress,
        ).current_round == progress.current_round,
        <OptimizationProgress as FromSpec<WalletOptimizationProgress>>::from_spec(
            progress,
        ).total_rounds == progress.total_rounds,
{
}

/// A transfer by the service provider has details once the request behind it is known,
/// unless that names an invoice that cannot be read or an HTLC that there is none of.
pub proof fn ssp_details_are_owed(transfer: WalletTransfer, parsed: ParsedInvoices)
    requires
        transfer.is_ssp_transfer,
    ensures
        match transfer.user_request {
            None => transfer_details(transfer, parsed) == Ok::<Option<DetailsValue>, SdkFault>(None),
            Some(
                SspUserRequest::LightningReceiveRequest {
                    payment_hash,
                    lightning_receive_payment_preimage,
                    ..
                },
            ) => {
                &&& parsed.lightning is None ==> transfer_details(transfer, parsed) == Err::<
                    Option<DetailsValue>,
                    SdkFault,
                >(SdkFault::Generic("Invalid invoice in SspUserRequest::LightningReceiveRequest"@))
                &&& parsed.lightning is Some ==> (transfer_details(transfer, parsed) is Ok
                    <==> lightning_htlc(
                    transfer,
                    payment_hash@,
                    text_option(lightning_receive_payment_preimage),
                ) is Ok)
            },
            Some(
                SspUserRequest::LightningSendRequest { lightning_send_payment_preimage, .. },
            ) => {
                &&& parsed.lightning is None ==> transfer_details(transfer, parsed) == Err::<
                    Option<DetailsValue>,
                    SdkFault,
                >(SdkFault::Generic("Invalid invoice in SspUserRequest::LightningSendRequest"@))
                &&& parsed.lightning is Some ==> (transfer_details(transfer, parsed) is Ok
                    <==> lightning_htlc(
                    transfer,
                    parsed.lightning->0.payment_hash@,
                    text_option(lightning_send_payment_preimage),
                ) is Ok)
            },
            Some(_) => transfer_details(transfer, parsed) matches Ok(Some(_)),
        },
{
}

/// What the contracts say of a payment is what its fields hold.
pub proof fn payments_are_their_fields(p: Payment, h: SparkHtlcDetails)
    ensures
        p@.id == p.id@,
        p@.payment_type == p.payment_type,
        p@.status == p.status,
        p@.amount == p.amount,
        p@.fees == p.fees,
        p@.timestamp == p.timestamp,
        p@.method == p.method,
        p@.conversion_details == p.conversion_details,
        h@.payment_hash == h.payment_hash@,
        h@.preimage == text_option(h.preimage),
        h@.expiry_time == h.expiry_time,
        h@.status == h.status,
        match (p.details, p@.details) {
            (None, None) => true,
            (
                Some(PaymentDetails::Spark { invoice_details, htlc_details, conversion_info }),
                Some(DetailsValue::Spark { spark_invoice, spark_htlc, spark_conversion }),
            ) => {
                &&& spark_conversion == conversion_info
                &&& spark_htlc is Some <==> htlc_details is Some
                &&& htlc_details matches Some(h) ==> spark_htlc == Some(h@)
                &&& spark_invoice is Some <==> invoice_details is Some
                &&& invoice_details matches Some(d) ==> spark_invoice->0.invoice == d.invoice@
                    && spark_invoice->0.description == text_option(d.description)
            },
            (
                Some(
                    PaymentDetails::Lightning {
                        description,
                        invoice,
                        destination_pubkey,
                        htlc_details,
                        ..
                    },
                ),
                Some(
                    DetailsValue::Lightning {
                        description: d,
                        invoice: i,
                        destination_pubkey: k,
                        htlc,
                        ..
                    },
                ),
            ) => d == text_option(description) && i == invoice@ && k == destination_pubkey@ && htlc
                == htlc_details@,
            (
                Some(PaymentDetails::Withdraw { tx_id }),
                Some(DetailsValue::Withdraw { withdraw_tx_id }),
            ) => withdraw_tx_id == tx_id@,
            (
                Some(PaymentDetails::Deposit { tx_id }),
                Some(DetailsValue::Deposit { deposit_tx_id }),
            ) => deposit_tx_id == tx_id@,
            (
                Some(PaymentDetails::Token { metadata, tx_hash, tx_type, .. }),
                Some(DetailsValue::Token { metadata: m, tx_hash: h, tx_type: t, .. }),
            ) => m == metadata && h == tx_hash@ && t == tx_type,
            _ => false,
        },
{
}

/// A token's metadata is the wallet's, with the issuer's key in hexadecimal.
pub proof fn tokens_keep_their_metadata(m: TokenMetadata, w: WalletTokenMetadata)
    requires
        is_metadata_of(m, w),
    ensures
        m.identifier == w.identifier,
        m.issuer_public_key@ == hex_text(w.issuer_public_key@),
        m.name == w.name,
        m.ticker == w.ticker,
        m.decimals == w.decimals,
        m.max_supply == w.max_supply,
        m.is_freezable == w.is_freezable,
{
}

} // verus!
