//! The configuration, and what makes it valid.
use super::error::{SdkError, SdkFault};
use super::types::{Config, ExternalInputParser, StableBalanceConfig, StableBalanceToken};
use crate::text::{join, join3};
use vstd::prelude::*;
use vstd::string::*;

verus! {

broadcast use vstd::string::group_string_axioms;

/// The parsers that are used unless the configuration opts out: an identifier,
/// an expression and a URL each.
pub const DEFAULT_EXTERNAL_INPUT_PARSERS: [(&'static str, &'static str, &'static str); 2] = [
    (
        "picknpay",
        "(.*)(za.co.electrum.picknpay)(.*)",
        "https://cryptoqr.net/.well-known/lnurlp/<input>",
    ),
    (
        "bootleggers",
        r"(.*)(wigroup\.co|yoyogroup\.co)(.*)",
        "https://cryptoqr.net/.well-known/lnurlw/<input>",
    ),
];

/// Whether an earlier token has the same label.
pub open spec fn repeats_label(tokens: Seq<StableBalanceToken>, i: int) -> bool {
    exists|j: int| 0 <= j < i && (#[trigger] tokens[j]).label@ == tokens[i].label@
}

/// Whether an earlier token has the same identifier.
pub open spec fn repeats_identifier(tokens: Seq<StableBalanceToken>, i: int) -> bool {
    exists|j: int|
        0 <= j < i && (#[trigger] tokens[j]).token_identifier@ == tokens[i].token_identifier@
}

/// What is wrong with a token, given those before it.
pub open spec fn token_fault(tokens: Seq<StableBalanceToken>, i: int) -> Option<Seq<char>> {
    if tokens[i].label@.len() == 0 {
        Some("token label must not be empty"@)
    } else if tokens[i].token_identifier@.len() == 0 {
        Some("token_identifier must not be empty"@)
    } else if repeats_label(tokens, i) {
        Some("tokens contains duplicate label: "@ + tokens[i].label@)
    } else if repeats_identifier(tokens, i) {
        Some("tokens contains duplicate token_identifier: "@ + tokens[i].token_identifier@)
    } else {
        None
    }
}

/// What is wrong with the first token at or behind `from` that something is wrong
/// with.
pub open spec fn first_token_fault(tokens: Seq<StableBalanceToken>, from: int) -> Option<Seq<char>>
    decreases tokens.len() - from,
{
    if from < 0 || from >= tokens.len() {
        None
    } else {
        match token_fault(tokens, from) {
            Some(f) => Some(f),
            None => first_token_fault(tokens, from + 1),
        }
    }
}

pub open spec fn has_label(tokens: Seq<StableBalanceToken>, label: Seq<char>) -> bool {
    exists|i: int| 0 <= i < tokens.len() && (#[trigger] tokens[i]).label@ == label
}

/// What is wrong with the settings of a stable balance.
pub open spec fn stable_balance_fault(sb: StableBalanceConfig) -> Option<Seq<char>> {
    if sb.tokens@.len() == 0 {
        Some("tokens must not be empty"@)
    } else {
        match first_token_fault(sb.tokens@, 0) {
            Some(f) => Some(f),
            None => if sb.max_slippage_bps is Some && sb.max_slippage_bps->0 > 10000 {
                Some("max_slippage_bps must be <= 10000"@)
            } else {
                match sb.default_active_label {
                    Some(label) => if has_label(sb.tokens@, label@) {
                        None
                    } else {
                        Some(
                            "default_active_label '"@ + label@ + "' not found in tokens list"@,
                        )
                    },
                    None => None,
                }
            },
        }
    }
}

/// What is wrong with a configuration.
pub open spec fn config_fault(c: Config) -> Option<Seq<char>> {
    if c.max_concurrent_claims == 0 {
        Some("max_concurrent_claims must be greater than 0"@)
    } else {
        match c.stable_balance_config {
            Some(sb) => stable_balance_fault(sb),
            None => None,
        }
    }
}

/// Whether a set of tokens is in order: none is blank, and no label and no
/// identifier occurs twice.
pub open spec fn are_sound_tokens(tokens: Seq<StableBalanceToken>) -> bool {
    &&& forall|i: int|
        0 <= i < tokens.len() ==> (#[trigger] tokens[i]).label@.len() > 0
            && tokens[i].token_identifier@.len() > 0
    &&& forall|i: int, j: int|
        0 <= j < i < tokens.len() ==> (#[trigger] tokens[i]).label@ != (#[trigger] tokens[j]).label@
            && tokens[i].token_identifier@ != tokens[j].token_identifier@
}

/// Whether a configuration is in order: claims can be made, and a stable balance
/// has tokens that are in order, no more slippage than everything, and a default
/// label among those of its tokens.
pub open spec fn is_sound_config(c: Config) -> bool {
    &&& c.max_concurrent_claims > 0
    &&& c.stable_balance_config matches Some(sb) ==> {
        &&& sb.tokens@.len() > 0
        &&& are_sound_tokens(sb.tokens@)
        &&& sb.max_slippage_bps matches Some(bps) ==> bps <= 10000
        &&& sb.default_active_label matches Some(label) ==> has_label(sb.tokens@, label@)
    }
}

proof fn lemma_first_token_fault(tokens: Seq<StableBalanceToken>, from: int)
    requires
        0 <= from,
    ensures
        first_token_fault(tokens, from) is None <==> forall|i: int|
            from <= i < tokens.len() ==> #[trigger] token_fault(tokens, i) is None,
    decreases tokens.len() - from,
{
    if from < tokens.len() {
        lemma_first_token_fault(tokens, from + 1);
    }
}

/// The valid configurations are those that are in order.
pub proof fn valid_configs_are_sound(c: Config)
    ensures
        config_fault(c) is None <==> is_sound_config(c),
{
    if let Some(sb) = c.stable_balance_config {
        let tokens = sb.tokens@;
        lemma_first_token_fault(tokens, 0);
        if first_token_fault(tokens, 0) is None {
            assert forall|i: int| 0 <= i < tokens.len() implies (#[trigger] tokens[i]).label@.len()
                > 0 && tokens[i].token_identifier@.len() > 0 by {
                assert(token_fault(tokens, i) is None);
            }
            assert forall|i: int, j: int| 0 <= j < i < tokens.len() implies (#[trigger]
            tokens[i]).label@ != (#[trigger] tokens[j]).label@ && tokens[i].token_identifier@
                != tokens[j].token_identifier@ by {
                assert(token_fault(tokens, i) is None);
            }
        }
        if are_sound_tokens(tokens) {
            assert forall|i: int| 0 <= i < tokens.len() implies #[trigger] token_fault(
                tokens,
                i,
            ) is None by {
                assert(tokens[i].label@.len() > 0);
            }
        }
    }
}

impl StableBalanceConfig {
    fn fault_of_token(tokens: &Vec<StableBalanceToken>, i: usize) -> (res: Option<String>)
        requires
            i < tokens@.len(),
        ensures
            match (res, token_fault(tokens@, i as int)) {
                (Some(e), Some(f)) => e@ == f,
                (None, None) => true,
                _ => false,
            },
    {
        let token = &tokens[i];
        if token.label.as_str().unicode_len() == 0 {
            return Some("token label must not be empty".to_string());
        }
        if token.token_identifier.as_str().unicode_len() == 0 {
            return Some("token_identifier must not be empty".to_string());
        }
        let mut same_label = false;
        let mut same_identifier = false;
        let mut j: usize = 0;
        while j < i
            invariant
                j <= i < tokens@.len(),
                token == tokens@[i as int],
                same_label == (exists|k: int|
                    0 <= k < j && (#[trigger] tokens@[k]).label@ == tokens@[i as int].label@),
                same_identifier == (exists|k: int|
                    0 <= k < j && (#[trigger] tokens@[k]).token_identifier@
                        == tokens@[i as int].token_identifier@),
            decreases i - j,
        {
            if tokens[j].label == token.label {
                same_label = true;
            }
            if tokens[j].token_identifier == token.token_identifier {
                same_identifier = true;
            }
            j = j + 1;
        }
        if same_label {
            return Some(join("tokens contains duplicate label: ", token.label.as_str()));
        }
        if same_identifier {
            return Some(
                join(
                    "tokens contains duplicate token_identifier: ",
                    token.token_identifier.as_str(),
                ),
            );
        }
        None
    }

    fn knows_label(&self, label: &String) -> (res: bool)
        ensures
            res == has_label(self.tokens@, label@),
    {
        let mut i: usize = 0;
        while i < self.tokens.len()
            invariant
                i <= self.tokens@.len(),
                forall|k: int| 0 <= k < i ==> (#[trigger] self.tokens@[k]).label@ != label@,
            decreases self.tokens@.len() - i,
        {
            if self.tokens[i].label == *label {
                return true;
            }
            i = i + 1;
        }
        false
    }

    fn fault(&self) -> (res: Option<String>)
        ensures
            match (res, stable_balance_fault(*self)) {
                (Some(e), Some(f)) => e@ == f,
                (None, None) => true,
                _ => false,
            },
    {
        if self.tokens.len() == 0 {
            return Some("tokens must not be empty".to_string());
        }
        let mut i: usize = 0;
        while i < self.tokens.len()
            invariant
                i <= self.tokens@.len(),
                self.tokens@.len() > 0,
                first_token_fault(self.tokens@, 0) == first_token_fault(self.tokens@, i as int),
            decreases self.tokens@.len() - i,
        {
            if let Some(e) = Self::fault_of_token(&self.tokens, i) {
                return Some(e);
            }
            i = i + 1;
        }
        if let Some(bps) = self.max_slippage_bps {
            if bps > 10000 {
                return Some("max_slippage_bps must be <= 10000".to_string());
            }
        }
        if let Some(label) = &self.default_active_label {
            if !self.knows_label(label) {
                return Some(
                    join3("default_active_label '", label.as_str(), "' not found in tokens list"),
                );
            }
        }
        None
    }
}

/// A parser by its identifier, expression and URL.
pub type ParserValue = (Seq<char>, Seq<char>, Seq<char>);

impl View for ExternalInputParser {
    type V = ParserValue;

    open spec fn view(&self) -> ParserValue {
        (self.provider_id@, self.input_regex@, self.parser_url@)
    }
}

pub open spec fn parser_values(parsers: Seq<ExternalInputParser>) -> Seq<ParserValue> {
    parsers.map_values(|p: ExternalInputParser| p@)
}

/// The parsers that are used unless the configuration opts out.
pub open spec fn default_parsers() -> Seq<ParserValue> {
    seq![
        (
            "picknpay"@,
            "(.*)(za.co.electrum.picknpay)(.*)"@,
            "https://cryptoqr.net/.well-known/lnurlp/<input>"@,
        ),
        (
            "bootleggers"@,
            r"(.*)(wigroup\.co|yoyogroup\.co)(.*)"@,
            "https://cryptoqr.net/.well-known/lnurlw/<input>"@,
        ),
    ]
}

/// The parsers of a configuration: the default ones, unless it opts out, then its
/// own.
pub open spec fn all_parsers(c: Config) -> Seq<ParserValue> {
    (if c.use_default_external_input_parsers {
        default_parsers()
    } else {
        Seq::empty()
    }) + (match c.external_input_parsers {
        Some(own) => parser_values(own@),
        None => Seq::empty(),
    })
}

impl Clone for ExternalInputParser {
    fn clone(&self) -> (res: ExternalInputParser)
        ensures
            res == *self,
    {
        ExternalInputParser {
            provider_id: self.provider_id.clone(),
            input_regex: self.input_regex.clone(),
            parser_url: self.parser_url.clone(),
        }
    }
}

impl Config {
    /// Whether the configuration is valid, and what is wrong with it otherwise.
    pub fn validate(&self) -> (res: Result<(), SdkError>)
        ensures
            match (res, config_fault(*self)) {
                (Ok(_), None) => true,
                (Err(e), Some(f)) => e@ == SdkFault::InvalidInput(f),
                _ => false,
            },
    {
        if self.max_concurrent_claims == 0 {
            return Err(
                SdkError::InvalidInput("max_concurrent_claims must be greater than 0".to_string()),
            );
        }
        if let Some(sb) = &self.stable_balance_config {
            if let Some(e) = sb.fault() {
                return Err(SdkError::InvalidInput(e));
            }
        }
        Ok(())
    }

    /// The parsers to try, in this order.
    pub fn get_all_external_input_parsers(&self) -> (res: Vec<ExternalInputParser>)
        ensures
            parser_values(res@) == all_parsers(*self),
    {
        let mut res: Vec<ExternalInputParser> = Vec::new();
        if self.use_default_external_input_parsers {
            let mut i: usize = 0;
            while i < 2
                invariant
                    i <= 2,
                    res@.len() == i,
                    forall|k: int| 0 <= k < i ==> (#[trigger] res@[k])@ == default_parsers()[k],
                decreases 2 - i,
            {
                let (id, regex, url) = DEFAULT_EXTERNAL_INPUT_PARSERS[i];
                res.push(
                    ExternalInputParser {
                        provider_id: id.to_string(),
                        input_regex: regex.to_string(),
                        parser_url: url.to_string(),
                    },
                );
                i = i + 1;
            }
        }
        let ghost defaults = res@;
        if let Some(own) = &self.external_input_parsers {
            let mut i: usize = 0;
            while i < own.len()
                invariant
                    i <= own@.len(),
                    res@ == defaults + own@.take(i as int),
                decreases own@.len() - i,
            {
                res.push(own[i].clone());
                i = i + 1;
                assert(res@ =~= defaults + own@.take(i as int));
            }
            assert(own@.take(i as int) =~= own@);
        }
        assert(parser_values(res@) =~= all_parsers(*self));
        res
    }
}

/// The parsers of a configuration: its own come last, in their order, and exactly the
/// two default ones come before them where it does not opt out.
pub proof fn own_parsers_come_last(c: Config, i: int)
    ensures
        ({
            let own: Seq<ExternalInputParser> = match c.external_input_parsers {
                Some(v) => v@,
                None => Seq::empty(),
            };
            let start: int = if c.use_default_external_input_parsers {
                2
            } else {
                0
            };
            let all = all_parsers(c);
            &&& all.len() == start + own.len()
            &&& 0 <= i < own.len() ==> all[start + i] == (
                own[i].provider_id@,
                own[i].input_regex@,
                own[i].parser_url@,
            )
            &&& start == 2 ==> all[0].0 == "picknpay"@ && all[1].0 == "bootleggers"@
        }),
{
}

/// Which error comes first: a token's own, in the order of the tokens, before the
/// slippage's and the default label's.
pub proof fn errors_come_in_order(sb: StableBalanceConfig, i: int)
    requires
        0 <= i < sb.tokens@.len(),
        forall|j: int| 0 <= j < i ==> #[trigger] token_fault(sb.tokens@, j) is None,
        token_fault(sb.tokens@, i) is Some,
    ensures
        stable_balance_fault(sb) == token_fault(sb.tokens@, i),
{
    lemma_fault_at(sb.tokens@, 0, i);
}

proof fn lemma_fault_at(tokens: Seq<StableBalanceToken>, from: int, i: int)
    requires
        0 <= from <= i < tokens.len(),
        forall|j: int| from <= j < i ==> #[trigger] token_fault(tokens, j) is None,
        token_fault(tokens, i) is Some,
    ensures
        first_token_fault(tokens, from) == token_fault(tokens, i),
    decreases i - from,
{
    if from < i {
        lemma_fault_at(tokens, from + 1, i);
    }
}

/// What is said of a token that is not in order, and of settings whose tokens are.
pub proof fn errors_say_what_is_wrong(c: Config, sb: StableBalanceConfig, i: int)
    requires
        0 <= i < sb.tokens@.len(),
        first_token_fault(sb.tokens@, 0) is None,
    ensures
        ({
            let (max, label) = (sb.max_slippage_bps, sb.default_active_label);
            &&& max is Some && max->0 > 10000 ==> stable_balance_fault(sb) == Some(
                "max_slippage_bps must be <= 10000"@,
            )
            &&& !(max is Some && max->0 > 10000) && label is Some && !has_label(
                sb.tokens@,
                label->0@,
            ) ==> stable_balance_fault(sb) == Some(
                "default_active_label '"@ + label->0@ + "' not found in tokens list"@,
            )
            &&& c.max_concurrent_claims == 0 ==> config_fault(c) == Some(
                "max_concurrent_claims must be greater than 0"@,
            )
            &&& c.max_concurrent_claims > 0 && c.stable_balance_config == Some(sb) ==> config_fault(
                c,
            ) == stable_balance_fault(sb)
        }),
{
}

/// Which configurations are valid, condition by condition.
pub proof fn valid_configs_are_these(c: Config, sb: StableBalanceConfig)
    requires
        c.stable_balance_config == Some(sb),
    ensures
        config_fault(c) is None <==> {
            &&& c.max_concurrent_claims > 0
            &&& sb.tokens@.len() > 0
            &&& forall|i: int|
                0 <= i < sb.tokens@.len() ==> (#[trigger] sb.tokens@[i]).label@.len() > 0
            &&& forall|i: int|
                0 <= i < sb.tokens@.len() ==> (#[trigger] sb.tokens@[i]).token_identifier@.len() > 0
            &&& forall|i: int, j: int|
                0 <= j < i < sb.tokens@.len() ==> (#[trigger] sb.tokens@[i]).label@ != (
                #[trigger] sb.tokens@[j]).label@
            &&& forall|i: int, j: int|
                0 <= j < i < sb.tokens@.len() ==> (#[trigger] sb.tokens@[i]).token_identifier@ != (
                #[trigger] sb.tokens@[j]).token_identifier@
            &&& sb.max_slippage_bps matches Some(bps) ==> bps <= 10000
            &&& sb.default_active_label matches Some(label) ==> exists|i: int|
                0 <= i < sb.tokens@.len() && (#[trigger] sb.tokens@[i]).label@ == label@
        },
{
    valid_configs_are_sound(c);
}

/// Without a stable balance only the number of claims matters.
pub proof fn other_configs_are_valid(c: Config)
    requires
        c.stable_balance_config is None,
    ensures
        config_fault(c) is None <==> c.max_concurrent_claims > 0,
{
}

/// What is said of a token that is not in order.
pub proof fn token_errors_say_what_is_wrong(tokens: Seq<StableBalanceToken>, i: int, j: int)
    requires
        0 <= j < i < tokens.len(),
    ensures
        tokens[i].label@.len() == 0 ==> token_fault(tokens, i) == Some(
            "token label must not be empty"@,
        ),
        tokens[i].label@.len() > 0 && tokens[i].token_identifier@.len() == 0 ==> token_fault(
            tokens,
            i,
        ) == Some("token_identifier must not be empty"@),
        tokens[i].label@.len() > 0 && tokens[i].token_identifier@.len() > 0 && tokens[i].label@
            == tokens[j].label@ ==> token_fault(tokens, i) == Some(
            "tokens contains duplicate label: "@ + tokens[i].label@,
        ),
        token_fault(tokens, i) is None ==> tokens[i].label@ != tokens[j].label@
            && tokens[i].token_identifier@ != tokens[j].token_identifier@,
{
}

} // verus!
