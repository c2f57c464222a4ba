//! A Spark environment on this machine, for development.
use crate::models::types::{
    Payment, PaymentType, SparkConfig, SparkSigningOperator, SparkSspConfig,
};
use crate::text::{decimal, decimal_text, is_lower_of, lower};
use vstd::prelude::*;
use vstd::string::*;

verus! {

broadcast use vstd::string::group_string_axioms;

/// The keys of the operators of a local environment.
pub const LOCAL_OPERATOR_PUBLIC_KEYS: [&'static str; 5] = [
    "0322ca18fc489ae25418a0e768273c2c61cabb823edfb14feb891e9bec62016510",
    "0341727a6c41b168f07eb50865ab8c397a53c7eef628ac1020956b705e43b6cb27",
    "0305ab8d485cc752394de4981f8a5ae004f2becfea6f432c9a59d5022d8764f0a6",
    "0352aef4d49439dedd798ac4aef1e7ebef95f569545b647a25338398c1247ffdea",
    "02c05c88cc8fc181b1ba30006df6a4b0597de6490e24514fbdd0266d2b9cd3d0ba",
];

/// The identifier of an operator: its number, from one on, in 64 digits.
pub open spec fn identifier(index: nat) -> Seq<char> {
    "000000000000000000000000000000000000000000000000000000000000000"@ + decimal(index + 1)
}

/// The address of an operator: below a domain, or on a port of this machine.
pub open spec fn operator_address(
    index: nat,
    base_port: u16,
    operator_domain: Option<Seq<char>>,
) -> Seq<char> {
    match operator_domain {
        Some(domain) => "https://"@ + decimal(index) + "."@ + domain,
        None => "https://localhost:"@ + decimal((base_port + index) as nat),
    }
}

pub open spec fn domain_view(domain: Option<&str>) -> Option<Seq<char>> {
    match domain {
        Some(d) => Some(d@),
        None => None,
    }
}

/// The addresses of the operators of a local environment, which has between one
/// and five. The ports of this machine have to suffice.
pub fn local_operator_addresses(
    operator_count: usize,
    base_port: u16,
    operator_domain: Option<&str>,
) -> (res: Result<Vec<String>, String>)
    requires
        operator_domain is None && 1 <= operator_count <= 5 ==> base_port + operator_count - 1
            <= u16::MAX,
    ensures
        match res {
            Ok(addresses) => {
                &&& 1 <= operator_count <= 5
                &&& addresses@.len() == operator_count
                &&& forall|i: int|
                    0 <= i < operator_count ==> (#[trigger] addresses@[i])@ == operator_address(
                        i as nat,
                        base_port,
                        domain_view(operator_domain),
                    )
            },
            Err(e) => if operator_count == 0 {
                e@ == "BREEZ_LOCAL_OPERATOR_COUNT must be at least 1"@
            } else {
                operator_count > 5 && e@ == "BREEZ_LOCAL_OPERATOR_COUNT="@ + decimal(
                    operator_count as nat,
                ) + " is unsupported; max is 5"@
            },
        },
{
    if operator_count == 0 {
        return Err("BREEZ_LOCAL_OPERATOR_COUNT must be at least 1".to_string());
    }
    if operator_count > 5 {
        return Err(
            "BREEZ_LOCAL_OPERATOR_COUNT=".to_string().concat(
                decimal_text(operator_count as u128).as_str(),
            ).concat(" is unsupported; max is 5"),
        );
    }
    let mut addresses: Vec<String> = Vec::new();
    let mut i: usize = 0;
    while i < operator_count
        invariant
            i <= operator_count <= 5,
            operator_domain is None ==> base_port + operator_count - 1 <= u16::MAX,
            addresses@.len() == i,
            forall|k: int|
                0 <= k < i ==> (#[trigger] addresses@[k])@ == operator_address(
                    k as nat,
                    base_port,
                    domain_view(operator_domain),
                ),
        decreases operator_count - i,
    {
        let address = match operator_domain {
            Some(domain) => "https://".to_string().concat(
                decimal_text(i as u128).as_str(),
            ).concat(".").concat(domain),
            None => "https://localhost:".to_string().concat(
                decimal_text((base_port + i as u16) as u128).as_str(),
            ),
        };
        addresses.push(address);
        i = i + 1;
    }
    Ok(addresses)
}

/// Whether a configuration is that of a local environment: an operator at each
/// address, of which more than half have to sign.
pub open spec fn is_local_config(
    c: SparkConfig,
    addresses: Seq<String>,
    ssp_url: Seq<char>,
) -> bool {
    &&& c.coordinator_identifier@ == identifier(0)
    &&& c.threshold == (addresses.len() + 2) / 2
    &&& c.signing_operators@.len() == addresses.len()
    &&& forall|i: int|
        0 <= i < addresses.len() ==> {
            let operator = #[trigger] c.signing_operators@[i];
            &&& operator.id == i
            &&& operator.identifier@ == identifier(i as nat)
            &&& operator.address@ == addresses[i]@
            &&& operator.identity_public_key@ == LOCAL_OPERATOR_PUBLIC_KEYS@[i]@
        }
    &&& c.ssp_config.base_url@ == ssp_url
    &&& c.ssp_config.identity_public_key@
        == "028c094a432d46a0ac95349d792c2e3730bd60c29188db716f56a99e39b95338b4"@
    &&& c.ssp_config.schema_endpoint matches Some(e) && e@ == "graphql/spark/rc"@
    &&& c.expected_withdraw_bond_sats == 10_000
    &&& c.expected_withdraw_relative_block_locktime == 1_000
}

fn operator_identifier(index: usize) -> (res: String)
    requires
        index < 5,
    ensures
        res@ == identifier(index as nat),
{
    "000000000000000000000000000000000000000000000000000000000000000".to_string().concat(
        decimal_text((index + 1) as u128).as_str(),
    )
}

/// The configuration of a local environment.
pub fn local_spark_config(operator_addresses: &Vec<String>, ssp_url: String) -> (res: SparkConfig)
    requires
        operator_addresses@.len() <= 5,
    ensures
        is_local_config(res, operator_addresses@, ssp_url@),
{
    let mut signing_operators: Vec<SparkSigningOperator> = Vec::new();
    let mut i: usize = 0;
    while i < operator_addresses.len()
        invariant
            i <= operator_addresses@.len() <= 5,
            signing_operators@.len() == i,
            forall|k: int|
                0 <= k < i ==> {
                    let operator = #[trigger] signing_operators@[k];
                    &&& operator.id == k
                    &&& operator.identifier@ == identifier(k as nat)
                    &&& operator.address@ == operator_addresses@[k]@
                    &&& operator.identity_public_key@ == LOCAL_OPERATOR_PUBLIC_KEYS@[k]@
                },
        decreases operator_addresses@.len() - i,
    {
        signing_operators.push(
            SparkSigningOperator {
                id: i as u32,
                identifier: operator_identifier(i),
                address: operator_addresses[i].clone(),
                identity_public_key: LOCAL_OPERATOR_PUBLIC_KEYS[i].to_string(),
            },
        );
        i = i + 1;
    }
    let threshold: u32 = ((signing_operators.len() + 2) / 2) as u32;
    SparkConfig {
        coordinator_identifier: operator_identifier(0),
        threshold,
        signing_operators,
        ssp_config: SparkSspConfig {
            base_url: ssp_url,
            identity_public_key:
                "028c094a432d46a0ac95349d792c2e3730bd60c29188db716f56a99e39b95338b4".to_string(),
            schema_endpoint: Some("graphql/spark/rc".to_string()),
        },
        expected_withdraw_bond_sats: 10_000,
        expected_withdraw_relative_block_locktime: 1_000,
    }
}

/// More than half of the operators have to sign, and never more than there are.
pub proof fn local_thresholds_are_majorities(c: SparkConfig, addresses: Seq<String>, url: Seq<char>)
    requires
        is_local_config(c, addresses, url),
        1 <= addresses.len() <= 5,
    ensures
        2 * c.threshold > addresses.len(),
        c.threshold <= addresses.len(),
{
}

/// What a switch in the environment is set to: yes or no, in several spellings.
pub open spec fn switch_value(value: Seq<char>) -> Option<bool> {
    let v = lower(value);
    if v == "1"@ || v == "true"@ || v == "yes"@ || v == "y"@ {
        Some(true)
    } else if v == "0"@ || v == "false"@ || v == "no"@ || v == "n"@ {
        Some(false)
    } else {
        None
    }
}

/// What a switch is set to; where it is not set, the default.
pub fn parse_bool(name: &str, value: Option<String>, default: bool) -> (res: Result<bool, String>)
    ensures
        match value {
            None => res == Ok::<bool, String>(default),
            Some(v) => match switch_value(v@) {
                Some(b) => res == Ok::<bool, String>(b),
                None => res matches Err(e) && e@ == "failed to parse "@ + name@ + "="@ + v@
                    + " as bool"@,
            },
        },
{
    match value {
        None => Ok(default),
        Some(v) => {
            let t = v.as_str();
            if is_lower_of(t, "1") || is_lower_of(t, "true")
                || is_lower_of(t, "yes") || is_lower_of(t, "y") {
                Ok(true)
            } else if is_lower_of(t, "0") || is_lower_of(t, "false")
                || is_lower_of(t, "no") || is_lower_of(t, "n") {
                Ok(false)
            } else {
                Err(
                    "failed to parse ".to_string().concat(name).concat("=").concat(t).concat(
                        " as bool",
                    ),
                )
            }
        },
    }
}

/// What is printed beside the balance once a received payment has settled.
pub fn balance_log_context(settled: &Payment) -> (res: Option<String>)
    ensures
        match res {
            Some(t) => settled.payment_type == PaymentType::Receive && t@
                == "received payment settled: id="@ + settled.id@ + ", method="@
                + settled.method.name() + ", amount="@ + decimal(settled.amount as nat),
            None => settled.payment_type != PaymentType::Receive,
        },
{
    match settled.payment_type {
        PaymentType::Send => None,
        PaymentType::Receive => Some(
            "received payment settled: id=".to_string().concat(settled.id.as_str()).concat(
                ", method=",
            ).concat(settled.method.to_string().as_str()).concat(", amount=").concat(
                decimal_text(settled.amount).as_str(),
            ),
        ),
    }
}

/// What a local environment is: operators numbered from zero on, each with its own
/// identifier, address and key, the first of which coordinates.
pub proof fn local_operators_are_numbered(
    c: SparkConfig,
    addresses: Seq<String>,
    url: Seq<char>,
    i: int,
)
    requires
        is_local_config(c, addresses, url),
        0 <= i < addresses.len() <= 5,
    ensures
        c.coordinator_identifier@ == c.signing_operators@[0].identifier@,
        c.signing_operators@.len() == addresses.len(),
        c.signing_operators@[i].id == i,
        c.signing_operators@[i].address@ == addresses[i]@,
        c.signing_operators@[i].identifier@.len() == 64,
        c.signing_operators@[i].identifier@.last() == "12345"@[i],
        forall|k: int| 0 <= k < 63 ==> c.signing_operators@[i].identifier@[k] == '0',
        c.signing_operators@[i].identity_public_key@ == LOCAL_OPERATOR_PUBLIC_KEYS@[i]@,
        c.ssp_config.base_url@ == url,
        c.ssp_config.identity_public_key@
            == "028c094a432d46a0ac95349d792c2e3730bd60c29188db716f56a99e39b95338b4"@,
        c.ssp_config.schema_endpoint is Some,
        c.ssp_config.schema_endpoint->0@ == "graphql/spark/rc"@,
        c.expected_withdraw_bond_sats == 10_000,
        c.expected_withdraw_relative_block_locktime == 1_000,
{
    reveal_strlit("000000000000000000000000000000000000000000000000000000000000000");
    reveal_strlit("12345");
    let op = c.signing_operators@[i];
    assert(decimal((i + 1) as nat) == seq![crate::text::digit((i + 1) as nat)]);
    assert(c.signing_operators@[0].identifier@ == identifier(0));
    assert(op.identifier@.last() == crate::text::digit((i + 1) as nat));
}

/// Operators on this machine have ports one after another; below a domain their
/// numbers are names.
pub proof fn operators_are_addressed(index: nat, base_port: u16, domain: Seq<char>)
    ensures
        operator_address(index, base_port, None) == "https://localhost:"@ + decimal(
            (base_port + index) as nat,
        ),
        operator_address(index, base_port, Some(domain)) == "https://"@ + decimal(index) + "."@
            + domain,
{
}

/// The spellings of yes and no, of either case, and nothing else.
pub proof fn switches_are_spelled(v: Seq<char>)
    ensures
        switch_value(v) == Some(true) <==> lower(v) == "1"@ || lower(v) == "true"@ || lower(v)
            == "yes"@ || lower(v) == "y"@,
        switch_value(v) == Some(false) <==> lower(v) == "0"@ || lower(v) == "false"@ || lower(v)
            == "no"@ || lower(v) == "n"@,
{
    reveal_strlit("1");
    reveal_strlit("true");
    reveal_strlit("yes");
    reveal_strlit("y");
    reveal_strlit("0");
    reveal_strlit("false");
    reveal_strlit("no");
    reveal_strlit("n");
    assert("1"@[0] == '1' && "true"@[0] == 't' && "yes"@[0] == 'y' && "y"@[0] == 'y');
    assert("0"@[0] == '0' && "false"@[0] == 'f' && "no"@[0] == 'n' && "n"@[0] == 'n');
}

} // verus!
