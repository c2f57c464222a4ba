//! Payments: how their properties are named, and the steps of a conversion.
use super::error::{SdkError, SdkFault};
use super::types::{
    AmountAdjustmentReason, AssetFilter, ConversionInfo, ConversionStep, Payment,
    PaymentDetails, PaymentMethod, PaymentStatus, PaymentType, SparkHtlcDetails, SparkHtlcStatus,
    TokenMetadata, TokenTransactionType,
};
use crate::text::{clone_text, join, join3, lower, lowercase, same_text, strip_prefix, to_lowercase};
use vstd::prelude::*;
use vstd::string::*;
use vstd::utf8::is_ascii_chars;

verus! {

broadcast use vstd::string::group_string_axioms;

impl PaymentType {
    /// The name of the type.
    pub open spec fn name(self) -> Seq<char> {
        match self {
            PaymentType::Receive => "receive"@,
            PaymentType::Send => "send"@,
        }
    }

    /// The name as text.
    pub fn to_string(&self) -> (res: String)
        ensures
            res@ == self.name(),
    {
        match self {
            PaymentType::Receive => "receive".to_string(),
            PaymentType::Send => "send".to_string(),
        }
    }

    /// What has that name, in upper or lower case.
    pub fn from_str(s: &str) -> (res: Result<PaymentType, String>)
        ensures
            match res {
                Ok(t) => t.name() == lowercase(s@),
                Err(e) => {
                    &&& e@ == "invalid payment type '"@ + s@ + "'"@
                    &&& forall|t: PaymentType| t.name() != lowercase(s@)
                },
            },
            forall|t: PaymentType|
                is_ascii_chars(s@) && lower(s@) == #[trigger] t.name() ==> res == Ok::<
                    PaymentType,
                    String,
                >(t),
    {
        proof {
            assert forall|a: PaymentType, b: PaymentType|
                #[trigger] a.name() == #[trigger] b.name() implies a == b by {
                PaymentType::names_differ(a, b);
            }
            assert(PaymentType::Receive.name() == "receive"@);
            assert(PaymentType::Send.name() == "send"@);
        }
        let l = to_lowercase(s);
        if same_text(l.as_str(), "receive") {
            Ok(PaymentType::Receive)
        } else if same_text(l.as_str(), "send") {
            Ok(PaymentType::Send)
        } else {
            Err(join3("invalid payment type '", s, "'"))
        }
    }

    /// A name is in lower case, so that it is read back as what it was written for.
    pub proof fn names_read_back(t: PaymentType)
        ensures
            is_ascii_chars(t.name()),
            lower(t.name()) == t.name(),
    {
        reveal_strlit("receive");
        reveal_strlit("send");
        assert(lower(t.name()) =~= t.name());
    }

    /// Names tell them apart.
    pub proof fn names_differ(a: PaymentType, b: PaymentType)
        ensures
            a.name() == b.name() <==> a == b,
    {
        reveal_strlit("receive");
        reveal_strlit("send");
        assert("receive"@.len() != "send"@.len());
    }
}

impl PaymentStatus {
    /// The name of the status.
    pub open spec fn name(self) -> Seq<char> {
        match self {
            PaymentStatus::Completed => "completed"@,
            PaymentStatus::Pending => "pending"@,
            PaymentStatus::Failed => "failed"@,
        }
    }

    /// The name as text.
    pub fn to_string(&self) -> (res: String)
        ensures
            res@ == self.name(),
    {
        match self {
            PaymentStatus::Completed => "completed".to_string(),
            PaymentStatus::Pending => "pending".to_string(),
            PaymentStatus::Failed => "failed".to_string(),
        }
    }

    /// What has that name, in upper or lower case.
    pub fn from_str(s: &str) -> (res: Result<PaymentStatus, String>)
        ensures
            match res {
                Ok(t) => t.name() == lowercase(s@),
                Err(e) => {
                    &&& e@ == "Invalid payment status '"@ + s@ + "'"@
                    &&& forall|t: PaymentStatus| t.name() != lowercase(s@)
                },
            },
            forall|t: PaymentStatus|
                is_ascii_chars(s@) && lower(s@) == #[trigger] t.name() ==> res == Ok::<
                    PaymentStatus,
                    String,
                >(t),
    {
        proof {
            assert forall|a: PaymentStatus, b: PaymentStatus|
                #[trigger] a.name() == #[trigger] b.name() implies a == b by {
                PaymentStatus::names_differ(a, b);
            }
            assert(PaymentStatus::Completed.name() == "completed"@);
            assert(PaymentStatus::Pending.name() == "pending"@);
            assert(PaymentStatus::Failed.name() == "failed"@);
        }
        let l = to_lowercase(s);
        if same_text(l.as_str(), "completed") {
            Ok(PaymentStatus::Completed)
        } else if same_text(l.as_str(), "pending") {
            Ok(PaymentStatus::Pending)
        } else if same_text(l.as_str(), "failed") {
            Ok(PaymentStatus::Failed)
        } else {
            Err(join3("Invalid payment status '", s, "'"))
        }
    }

    /// A name is in lower case, so that it is read back as what it was written for.
    pub proof fn names_read_back(t: PaymentStatus)
        ensures
            is_ascii_chars(t.name()),
            lower(t.name()) == t.name(),
    {
        reveal_strlit("completed");
        reveal_strlit("pending");
        reveal_strlit("failed");
        assert(lower(t.name()) =~= t.name());
    }

    /// Names tell them apart.
    pub proof fn names_differ(a: PaymentStatus, b: PaymentStatus)
        ensures
            a.name() == b.name() <==> a == b,
    {
        reveal_strlit("completed");
        reveal_strlit("pending");
        reveal_strlit("failed");
        assert("completed"@.len() != "pending"@.len());
        assert("completed"@.len() != "failed"@.len());
        assert("pending"@.len() != "failed"@.len());
    }
}

impl PaymentMethod {
    /// The name of the method.
    pub open spec fn name(self) -> Seq<char> {
        match self {
            PaymentMethod::Lightning => "lightning"@,
            PaymentMethod::Spark => "spark"@,
            PaymentMethod::Token => "token"@,
            PaymentMethod::Deposit => "deposit"@,
            PaymentMethod::Withdraw => "withdraw"@,
            PaymentMethod::Unknown => "unknown"@,
        }
    }

    /// The name as text.
    pub fn to_string(&self) -> (res: String)
        ensures
            res@ == self.name(),
    {
        match self {
            PaymentMethod::Lightning => "lightning".to_string(),
            PaymentMethod::Spark => "spark".to_string(),
            PaymentMethod::Token => "token".to_string(),
            PaymentMethod::Deposit => "deposit".to_string(),
            PaymentMethod::Withdraw => "withdraw".to_string(),
            PaymentMethod::Unknown => "unknown".to_string(),
        }
    }

    /// What has that name.
    pub fn from_str(s: &str) -> (res: Result<PaymentMethod, ()>)
        ensures
            match res {
                Ok(t) => t.name() == s@,
                Err(_) => forall|t: PaymentMethod| t.name() != s@,
            },
            forall|t: PaymentMethod|
                s@ == #[trigger] t.name() ==> res == Ok::<PaymentMethod, ()>(t),
    {
        proof {
            assert forall|a: PaymentMethod, b: PaymentMethod|
                #[trigger] a.name() == #[trigger] b.name() implies a == b by {
                PaymentMethod::names_differ(a, b);
            }
            assert(PaymentMethod::Lightning.name() == "lightning"@);
            assert(PaymentMethod::Spark.name() == "spark"@);
            assert(PaymentMethod::Token.name() == "token"@);
            assert(PaymentMethod::Deposit.name() == "deposit"@);
            assert(PaymentMethod::Withdraw.name() == "withdraw"@);
            assert(PaymentMethod::Unknown.name() == "unknown"@);
        }
        if same_text(s, "lightning") {
            Ok(PaymentMethod::Lightning)
        } else if same_text(s, "spark") {
            Ok(PaymentMethod::Spark)
        } else if same_text(s, "token") {
            Ok(PaymentMethod::Token)
        } else if same_text(s, "deposit") {
            Ok(PaymentMethod::Deposit)
        } else if same_text(s, "withdraw") {
            Ok(PaymentMethod::Withdraw)
        } else if same_text(s, "unknown") {
            Ok(PaymentMethod::Unknown)
        } else {
            Err(())
        }
    }

    /// Names tell them apart, so that a name is read back as what it was written
    /// for.
    pub proof fn names_differ(a: PaymentMethod, b: PaymentMethod)
        ensures
            a.name() == b.name() <==> a == b,
    {
        reveal_strlit("lightning");
        reveal_strlit("spark");
        reveal_strlit("token");
        reveal_strlit("deposit");
        reveal_strlit("withdraw");
        reveal_strlit("unknown");
        assert("lightning"@.len() != "spark"@.len());
        assert("lightning"@.len() != "token"@.len());
        assert("lightning"@.len() != "deposit"@.len());
        assert("lightning"@.len() != "withdraw"@.len());
        assert("lightning"@.len() != "unknown"@.len());
        assert("spark"@[0] != "token"@[0]);
        assert("spark"@.len() != "deposit"@.len());
        assert("spark"@.len() != "withdraw"@.len());
        assert("spark"@.len() != "unknown"@.len());
        assert("token"@.len() != "deposit"@.len());
        assert("token"@.len() != "withdraw"@.len());
        assert("token"@.len() != "unknown"@.len());
        assert("deposit"@.len() != "withdraw"@.len());
        assert("deposit"@[0] != "unknown"@[0]);
        assert("withdraw"@.len() != "unknown"@.len());
    }
}

impl TokenTransactionType {
    /// The name of the type.
    pub open spec fn name(self) -> Seq<char> {
        match self {
            TokenTransactionType::Transfer => "transfer"@,
            TokenTransactionType::Mint => "mint"@,
            TokenTransactionType::Burn => "burn"@,
        }
    }

    /// The name as text.
    pub fn to_string(&self) -> (res: String)
        ensures
            res@ == self.name(),
    {
        match self {
            TokenTransactionType::Transfer => "transfer".to_string(),
            TokenTransactionType::Mint => "mint".to_string(),
            TokenTransactionType::Burn => "burn".to_string(),
        }
    }

    /// What has that name, in upper or lower case.
    pub fn from_str(s: &str) -> (res: Result<TokenTransactionType, String>)
        ensures
            match res {
                Ok(t) => t.name() == lowercase(s@),
                Err(e) => {
                    &&& e@ == "Invalid token transaction type '"@ + s@ + "'"@
                    &&& forall|t: TokenTransactionType| t.name() != lowercase(s@)
                },
            },
            forall|t: TokenTransactionType|
                is_ascii_chars(s@) && lower(s@) == #[trigger] t.name() ==> res == Ok::<
                    TokenTransactionType,
                    String,
                >(t),
    {
        proof {
            assert forall|a: TokenTransactionType, b: TokenTransactionType|
                #[trigger] a.name() == #[trigger] b.name() implies a == b by {
                TokenTransactionType::names_differ(a, b);
            }
            assert(TokenTransactionType::Transfer.name() == "transfer"@);
            assert(TokenTransactionType::Mint.name() == "mint"@);
            assert(TokenTransactionType::Burn.name() == "burn"@);
        }
        let l = to_lowercase(s);
        if same_text(l.as_str(), "transfer") {
            Ok(TokenTransactionType::Transfer)
        } else if same_text(l.as_str(), "mint") {
            Ok(TokenTransactionType::Mint)
        } else if same_text(l.as_str(), "burn") {
            Ok(TokenTransactionType::Burn)
        } else {
            Err(join3("Invalid token transaction type '", s, "'"))
        }
    }

    /// A name is in lower case, so that it is read back as what it was written for.
    pub proof fn names_read_back(t: TokenTransactionType)
        ensures
            is_ascii_chars(t.name()),
            lower(t.name()) == t.name(),
    {
        reveal_strlit("transfer");
        reveal_strlit("mint");
        reveal_strlit("burn");
        assert(lower(t.name()) =~= t.name());
    }

    /// Names tell them apart.
    pub proof fn names_differ(a: TokenTransactionType, b: TokenTransactionType)
        ensures
            a.name() == b.name() <==> a == b,
    {
        reveal_strlit("transfer");
        reveal_strlit("mint");
        reveal_strlit("burn");
        assert("transfer"@.len() != "mint"@.len());
        assert("transfer"@.len() != "burn"@.len());
        assert("mint"@[0] != "burn"@[0]);
    }
}

impl SparkHtlcStatus {
    /// The name of the status.
    pub open spec fn name(self) -> Seq<char> {
        match self {
            SparkHtlcStatus::WaitingForPreimage => "WaitingForPreimage"@,
            SparkHtlcStatus::PreimageShared => "PreimageShared"@,
            SparkHtlcStatus::Returned => "Returned"@,
        }
    }

    /// The name as text.
    pub fn to_string(&self) -> (res: String)
        ensures
            res@ == self.name(),
    {
        match self {
            SparkHtlcStatus::WaitingForPreimage => "WaitingForPreimage".to_string(),
            SparkHtlcStatus::PreimageShared => "PreimageShared".to_string(),
            SparkHtlcStatus::Returned => "Returned".to_string(),
        }
    }

    /// What has that name.
    pub fn from_str(s: &str) -> (res: Result<SparkHtlcStatus, String>)
        ensures
            match res {
                Ok(t) => t.name() == s@,
                Err(e) => {
                    &&& e@ == "Invalid Spark HTLC status"@
                    &&& forall|t: SparkHtlcStatus| t.name() != s@
                },
            },
            forall|t: SparkHtlcStatus|
                s@ == #[trigger] t.name() ==> res == Ok::<SparkHtlcStatus, String>(t),
    {
        proof {
            assert forall|a: SparkHtlcStatus, b: SparkHtlcStatus|
                #[trigger] a.name() == #[trigger] b.name() implies a == b by {
                SparkHtlcStatus::names_differ(a, b);
            }
            assert(SparkHtlcStatus::WaitingForPreimage.name() == "WaitingForPreimage"@);
            assert(SparkHtlcStatus::PreimageShared.name() == "PreimageShared"@);
            assert(SparkHtlcStatus::Returned.name() == "Returned"@);
        }
        if same_text(s, "WaitingForPreimage") {
            Ok(SparkHtlcStatus::WaitingForPreimage)
        } else if same_text(s, "PreimageShared") {
            Ok(SparkHtlcStatus::PreimageShared)
        } else if same_text(s, "Returned") {
            Ok(SparkHtlcStatus::Returned)
        } else {
            Err("Invalid Spark HTLC status".to_string())
        }
    }

    /// Names tell them apart, so that a name is read back as what it was written
    /// for.
    pub proof fn names_differ(a: SparkHtlcStatus, b: SparkHtlcStatus)
        ensures
            a.name() == b.name() <==> a == b,
    {
        reveal_strlit("WaitingForPreimage");
        reveal_strlit("PreimageShared");
        reveal_strlit("Returned");
        assert("WaitingForPreimage"@.len() != "PreimageShared"@.len());
        assert("WaitingForPreimage"@.len() != "Returned"@.len());
        assert("PreimageShared"@.len() != "Returned"@.len());
    }
}

impl PaymentStatus {
    /// Whether the status is final: completed or failed.
    pub fn is_final(&self) -> (res: bool)
        ensures
            res == (*self == PaymentStatus::Completed || *self == PaymentStatus::Failed),
    {
        match self {
            PaymentStatus::Completed | PaymentStatus::Failed => true,
            PaymentStatus::Pending => false,
        }
    }
}

/// What an asset filter's text asks for.
pub enum AssetFilterValue {
    Bitcoin,
    AnyToken,
    Token(Seq<char>),
}

impl View for AssetFilter {
    type V = AssetFilterValue;

    open spec fn view(&self) -> AssetFilterValue {
        match self {
            AssetFilter::Bitcoin => AssetFilterValue::Bitcoin,
            AssetFilter::Token { token_identifier: None } => AssetFilterValue::AnyToken,
            AssetFilter::Token { token_identifier: Some(id) } => AssetFilterValue::Token(id@),
        }
    }
}

/// Whether a filter is what a text in lower case asks for: `bitcoin`, `token`, or
/// `token:` and an identifier.
pub open spec fn is_asset_filter(f: AssetFilterValue, text: Seq<char>) -> bool {
    match f {
        AssetFilterValue::Bitcoin => text == "bitcoin"@,
        AssetFilterValue::AnyToken => text == "token"@,
        AssetFilterValue::Token(id) => text == "token:"@ + id,
    }
}

impl AssetFilter {
    /// The filter that a text asks for, in upper or lower case.
    pub fn from_str(s: &str) -> (res: Result<AssetFilter, String>)
        ensures
            match res {
                Ok(f) => is_asset_filter(f@, lowercase(s@)),
                Err(e) => e@ == "Invalid asset filter '"@ + s@ + "'"@ && forall|f: AssetFilterValue|
                    !is_asset_filter(f, lowercase(s@)),
            },
            is_ascii_chars(s@) ==> match res {
                Ok(f) => is_asset_filter(f@, lower(s@)),
                Err(_) => forall|f: AssetFilterValue| !is_asset_filter(f, lower(s@)),
            },
    {
        let l = to_lowercase(s);
        if same_text(l.as_str(), "bitcoin") {
            Ok(AssetFilter::Bitcoin)
        } else if same_text(l.as_str(), "token") {
            Ok(AssetFilter::Token { token_identifier: None })
        } else {
            match strip_prefix(l.as_str(), "token:") {
                Some(id) => Ok(AssetFilter::Token { token_identifier: Some(id) }),
                None => {
                    proof {
                        assert forall|f: AssetFilterValue| !is_asset_filter(f, lowercase(s@)) by {
                            if let AssetFilterValue::Token(id) = f {
                                if l@ == "token:"@ + id {
                                    assert("token:"@.is_prefix_of(l@));
                                }
                            }
                        }
                    }
                    Err(join3("Invalid asset filter '", s, "'"))
                },
            }
        }
    }
}

/// A text asks for one filter at most.
pub proof fn asset_filters_differ(f: AssetFilterValue, g: AssetFilterValue, text: Seq<char>)
    requires
        is_asset_filter(f, text),
        is_asset_filter(g, text),
    ensures
        f == g,
{
    reveal_strlit("bitcoin");
    reveal_strlit("token");
    reveal_strlit("token:");
    assert("bitcoin"@[0] == 'b');
    assert("token"@[0] == 't');
    assert("token:"@[0] == 't');
    if let AssetFilterValue::Token(a) = f {
        assert(a =~= text.skip(6));
        assert(text[0] == 't' && text.len() >= 6);
    }
    if let AssetFilterValue::Token(b) = g {
        assert(b =~= text.skip(6));
        assert(text[0] == 't' && text.len() >= 6);
    }
}

impl Clone for TokenMetadata {
    fn clone(&self) -> (res: TokenMetadata)
        ensures
            res == *self,
    {
        TokenMetadata {
            identifier: self.identifier.clone(),
            issuer_public_key: self.issuer_public_key.clone(),
            name: self.name.clone(),
            ticker: self.ticker.clone(),
            decimals: self.decimals,
            max_supply: self.max_supply,
            is_freezable: self.is_freezable,
        }
    }
}

impl Clone for AmountAdjustmentReason {
    fn clone(&self) -> (res: AmountAdjustmentReason)
        ensures
            res == *self,
    {
        AmountAdjustmentReason { name: self.name.clone() }
    }
}

impl Clone for SparkHtlcDetails {
    fn clone(&self) -> (res: SparkHtlcDetails)
        ensures
            res == *self,
    {
        SparkHtlcDetails {
            payment_hash: self.payment_hash.clone(),
            preimage: clone_text(&self.preimage),
            expiry_time: self.expiry_time,
            status: self.status,
        }
    }
}

impl Payment {
    /// What the payment knows of a conversion that it is a part of.
    pub open spec fn conversion(self) -> Option<ConversionInfo> {
        match self.details {
            Some(PaymentDetails::Spark { conversion_info: Some(info), .. }) => Some(info),
            Some(PaymentDetails::Token { conversion_info: Some(info), .. }) => Some(info),
            _ => None,
        }
    }

    /// Whether the payment is part of a conversion. Conversions make payments of
    /// their own, which are told by the conversion in their details.
    pub fn is_conversion_child(&self) -> (res: bool)
        ensures
            res == (self.conversion() is Some),
    {
        match &self.details {
            Some(PaymentDetails::Spark { conversion_info: Some(_), .. }) => true,
            Some(PaymentDetails::Token { conversion_info: Some(_), .. }) => true,
            _ => false,
        }
    }
}

/// The sum, or the largest number where the sum is larger.
pub open spec fn saturating_sum(a: u128, b: u128) -> u128 {
    if a + b > u128::MAX {
        u128::MAX
    } else {
        (a + b) as u128
    }
}

/// The step of a conversion that a payment is, if it is one: the fee is the sum
/// of the payment's fee and the conversion's, and only a token payment has token
/// metadata.
pub open spec fn conversion_step(p: Payment) -> Option<ConversionStep> {
    match p.conversion() {
        None => None,
        Some(info) => Some(
            ConversionStep {
                payment_id: p.id,
                amount: p.amount,
                fee: saturating_sum(
                    p.fees,
                    match info.fee {
                        Some(fee) => fee,
                        None => 0,
                    },
                ),
                method: p.method,
                token_metadata: match p.details {
                    Some(PaymentDetails::Token { metadata, .. }) => Some(metadata),
                    _ => None,
                },
                amount_adjustment: info.amount_adjustment,
            },
        ),
    }
}

/// A payment is a step of a conversion exactly where it is part of one, and only
/// a token payment brings token metadata.
pub proof fn conversion_children_are_steps(p: Payment)
    ensures
        conversion_step(p) is Some <==> p.conversion() is Some,
        conversion_step(p) matches Some(step) ==> (step.token_metadata is Some
            <==> p.details matches Some(PaymentDetails::Token { .. })),
        conversion_step(p) matches Some(step) ==> step.fee >= p.fees,
{
}

pub open spec fn no_conversion(p: Payment) -> SdkFault {
    SdkFault::Generic("No conversion info available for payment "@ + p.id@)
}

impl ConversionStep {
    /// The step of a conversion that a payment is.
    pub fn from_payment(payment: &Payment) -> (res: Result<ConversionStep, SdkError>)
        ensures
            match (res, conversion_step(*payment)) {
                (Ok(step), Some(model)) => step == model,
                (Err(e), None) => e@ == no_conversion(*payment),
                _ => false,
            },
    {
        let (info, token_metadata) = match &payment.details {
            Some(PaymentDetails::Spark { conversion_info: Some(info), .. }) => (info, None),
            Some(PaymentDetails::Token { conversion_info: Some(info), metadata, .. }) => (
                info,
                Some(metadata.clone()),
            ),
            _ => {
                return Err(
                    SdkError::Generic(
                        join("No conversion info available for payment ", payment.id.as_str()),
                    ),
                );
            },
        };
        let conversion_fee: u128 = match info.fee {
            Some(fee) => fee,
            None => 0,
        };
        Ok(
            ConversionStep {
                payment_id: payment.id.clone(),
                amount: payment.amount,
                fee: payment.fees.saturating_add(conversion_fee),
                method: payment.method,
                token_metadata,
                amount_adjustment: match &info.amount_adjustment {
                    Some(a) => Some(a.clone()),
                    None => None,
                },
            },
        )
    }
}

/// The first payment of a type at or behind `from`.
pub open spec fn first_of_type(payments: Seq<Payment>, t: PaymentType, from: int) -> Option<int>
    decreases payments.len() - from,
{
    if from < 0 || from >= payments.len() {
        None
    } else if payments[from].payment_type == t {
        Some(from)
    } else {
        first_of_type(payments, t, from + 1)
    }
}

/// The step that the first payment of a type is; an error where it is none.
pub open spec fn step_of_type(payments: Seq<Payment>, t: PaymentType) -> Result<
    Option<ConversionStep>,
    SdkFault,
> {
    match first_of_type(payments, t, 0) {
        None => Ok(None),
        Some(i) => match conversion_step(payments[i]) {
            Some(step) => Ok(Some(step)),
            None => Err(no_conversion(payments[i])),
        },
    }
}

fn find_step(payments: &[Payment], t: PaymentType) -> (res: Result<
    Option<ConversionStep>,
    SdkError,
>)
    ensures
        match (res, step_of_type(payments@, t)) {
            (Ok(step), Ok(model)) => step == model,
            (Err(e), Err(f)) => e@ == f,
            _ => false,
        },
{
    let mut i: usize = 0;
    while i < payments.len()
        invariant
            i <= payments@.len(),
            first_of_type(payments@, t, 0) == first_of_type(payments@, t, i as int),
        decreases payments@.len() - i,
    {
        if payments[i].payment_type == t {
            return match ConversionStep::from_payment(&payments[i]) {
                Ok(step) => Ok(Some(step)),
                Err(e) => Err(e),
            };
        }
        i = i + 1;
    }
    Ok(None)
}

/// The steps of a conversion, out of the payments that it made: the first one
/// sent is what it started from, and the first one received is what it led to.
/// Without payments there are no steps.
pub fn conversion_steps_from_payments(payments: &[Payment]) -> (res: Result<
    (Option<ConversionStep>, Option<ConversionStep>),
    SdkError,
>)
    ensures
        match (
            step_of_type(payments@, PaymentType::Send),
            step_of_type(payments@, PaymentType::Receive),
        ) {
            (Err(f), _) => res matches Err(e) && e@ == f,
            (Ok(_), Err(f)) => res matches Err(e) && e@ == f,
            (Ok(from), Ok(to)) => res == Ok::<
                (Option<ConversionStep>, Option<ConversionStep>),
                SdkError,
            >((from, to)),
        },
{
    let from = match find_step(payments, PaymentType::Send) {
        Ok(step) => step,
        Err(e) => {
            return Err(e);
        },
    };
    let to = match find_step(payments, PaymentType::Receive) {
        Ok(step) => step,
        Err(e) => {
            return Err(e);
        },
    };
    Ok((from, to))
}

proof fn lemma_first_of_type(payments: Seq<Payment>, p: Payment, t: PaymentType, from: int)
    requires
        0 <= from <= payments.len(),
    ensures
        first_of_type(payments, t, from) is Some <==> exists|i: int|
            from <= i < payments.len() && (#[trigger] payments[i]).payment_type == t,
        first_of_type(payments, t, from) matches Some(i) ==> from <= i < payments.len(),
        p.payment_type != t || first_of_type(payments, t, from) is Some ==> first_of_type(
            payments.push(p),
            t,
            from,
        ) == first_of_type(payments, t, from),
    decreases payments.len() - from,
{
    if from < payments.len() {
        assert(payments.push(p)[from] == payments[from]);
        lemma_first_of_type(payments, p, t, from + 1);
    } else {
        assert(first_of_type(payments.push(p), t, from + 1) is None);
    }
}

/// Without payments of a type there is no such step. One more payment of the other
/// type does not matter to a step, nor does one more of its own type where one
/// occurs already.
pub proof fn steps_depend_on_their_type(payments: Seq<Payment>, p: Payment, t: PaymentType)
    ensures
        (forall|i: int| 0 <= i < payments.len() ==> (#[trigger] payments[i]).payment_type != t)
            ==> step_of_type(payments, t) == Ok::<Option<ConversionStep>, SdkFault>(None),
        p.payment_type != t ==> step_of_type(payments.push(p), t) == step_of_type(payments, t),
        (exists|i: int| 0 <= i < payments.len() && (#[trigger] payments[i]).payment_type == t)
            ==> step_of_type(payments.push(p), t) == step_of_type(payments, t),
{
    lemma_first_of_type(payments, p, t, 0);
    if let Some(i) = first_of_type(payments, t, 0) {
        assert(payments.push(p)[i] == payments[i]);
    }
}

/// One more payment of a type that occurs already leaves both steps as they were.
pub proof fn later_payments_change_no_step(payments: Seq<Payment>, p: Payment)
    requires
        exists|i: int|
            0 <= i < payments.len() && (#[trigger] payments[i]).payment_type == p.payment_type,
    ensures
        step_of_type(payments.push(p), PaymentType::Send) == step_of_type(
            payments,
            PaymentType::Send,
        ),
        step_of_type(payments.push(p), PaymentType::Receive) == step_of_type(
            payments,
            PaymentType::Receive,
        ),
{
    steps_depend_on_their_type(payments, p, PaymentType::Send);
    steps_depend_on_their_type(payments, p, PaymentType::Receive);
}

/// What a step holds of its payment: its identifier, amount and method, both fees
/// together, and, for tokens, the token.
pub proof fn steps_hold_their_payment(p: Payment, info: ConversionInfo)
    requires
        p.conversion() == Some(info),
    ensures
        conversion_step(p) matches Some(step) && {
            let fee = p.fees + (if info.fee is Some {
                info.fee->0 as int
            } else {
                0
            });
            &&& step.payment_id == p.id
            &&& step.amount == p.amount
            &&& step.method == p.method
            &&& fee <= u128::MAX ==> step.fee == fee
            &&& fee > u128::MAX ==> step.fee == u128::MAX
            &&& step.amount_adjustment == info.amount_adjustment
            &&& p.details matches Some(PaymentDetails::Token { metadata, .. })
                ==> step.token_metadata == Some(metadata)
            &&& p.details matches Some(PaymentDetails::Spark { .. }) ==> step.token_metadata is None
        },
{
}

/// What a payment knows of a conversion stands in its details, and only Spark and token
/// payments know of one.
pub proof fn conversions_stand_in_the_details(p: Payment)
    ensures
        match p.details {
            Some(PaymentDetails::Spark { conversion_info, .. }) => p.conversion() == conversion_info,
            Some(PaymentDetails::Token { conversion_info, .. }) => p.conversion() == conversion_info,
            _ => p.conversion() is None,
        },
{
}

/// The payment of a type that counts is the first: none before it is of that type.
pub proof fn the_first_payment_counts(payments: Seq<Payment>, t: PaymentType, from: int)
    requires
        0 <= from,
    ensures
        first_of_type(payments, t, from) matches Some(i) ==> {
            &&& from <= i < payments.len()
            &&& payments[i].payment_type == t
            &&& forall|j: int| from <= j < i ==> (#[trigger] payments[j]).payment_type != t
        },
        first_of_type(payments, t, from) is None ==> forall|j: int|
            from <= j < payments.len() ==> (#[trigger] payments[j]).payment_type != t,
    decreases payments.len() - from,
{
    if from < payments.len() && payments[from].payment_type != t {
        the_first_payment_counts(payments, t, from + 1);
    }
}

/// The step of a type is that of the first payment of the type, if that is a step.
pub proof fn steps_are_of_first_payments(payments: Seq<Payment>, t: PaymentType, i: int)
    requires
        0 <= i < payments.len(),
        payments[i].payment_type == t,
        forall|j: int| 0 <= j < i ==> (#[trigger] payments[j]).payment_type != t,
    ensures
        match conversion_step(payments[i]) {
            Some(step) => step_of_type(payments, t) == Ok::<Option<ConversionStep>, SdkFault>(
                Some(step),
            ),
            None => step_of_type(payments, t) == Err::<Option<ConversionStep>, SdkFault>(
                SdkFault::Generic("No conversion info available for payment "@ + payments[i].id@),
            ),
        },
{
    the_first_payment_counts(payments, t, 0);
}

/// What the names are.
pub proof fn properties_have_these_names()
    ensures
        PaymentType::Send.name() == "send"@,
        PaymentType::Receive.name() == "receive"@,
        PaymentStatus::Completed.name() == "completed"@,
        PaymentStatus::Pending.name() == "pending"@,
        PaymentStatus::Failed.name() == "failed"@,
        PaymentMethod::Lightning.name() == "lightning"@,
        PaymentMethod::Spark.name() == "spark"@,
        PaymentMethod::Token.name() == "token"@,
        PaymentMethod::Deposit.name() == "deposit"@,
        PaymentMethod::Withdraw.name() == "withdraw"@,
        PaymentMethod::Unknown.name() == "unknown"@,
        TokenTransactionType::Transfer.name() == "transfer"@,
        TokenTransactionType::Mint.name() == "mint"@,
        TokenTransactionType::Burn.name() == "burn"@,
        SparkHtlcStatus::WaitingForPreimage.name() == "WaitingForPreimage"@,
        SparkHtlcStatus::PreimageShared.name() == "PreimageShared"@,
        SparkHtlcStatus::Returned.name() == "Returned"@,
{
}

/// What asset filters' texts are.
pub proof fn asset_filters_have_these_texts(text: Seq<char>, id: Seq<char>)
    ensures
        is_asset_filter(AssetFilterValue::Bitcoin, text) <==> text == "bitcoin"@,
        is_asset_filter(AssetFilterValue::AnyToken, text) <==> text == "token"@,
        is_asset_filter(AssetFilterValue::Token(id), text) <==> text == "token:"@ + id,
        AssetFilter::Bitcoin@ == AssetFilterValue::Bitcoin,
        (AssetFilter::Token { token_identifier: None })@ == AssetFilterValue::AnyToken,
{
}

} // verus!
