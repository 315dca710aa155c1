//! The relayer's configuration, as given by the variables of its environment.

use vstd::prelude::*;

verus! {

/// The relayer's configuration.
#[derive(Default, Debug, Clone)]
pub struct Config {
    pub log_level: String,
    pub eth_node_wss_url: String,
    pub eth_contract_address: String,
    pub azero_node_wss_url: String,
    pub azero_sudo_seed: String,
    /// The block from which the events of the other chain are read.
    pub eth_from_block: usize,
}

/// What the environment holds for each variable that the relayer reads:
/// `LOG_LEVEL`, `ETH_WSS_URL`, `AZERO_WSS_URL`, `AZERO_SUDO_SEED`,
/// `ETH_CONTRACT_ADDRESS` and `ETH_FROM_BLOCK`. `None` stands for a variable
/// that is not set.
#[derive(Default, Debug, Clone)]
pub struct Variables {
    pub log_level: Option<String>,
    pub eth_wss_url: Option<String>,
    pub azero_wss_url: Option<String>,
    pub azero_sudo_seed: Option<String>,
    pub eth_contract_address: Option<String>,
    pub eth_from_block: Option<String>,
}

/// A configuration, with its texts as sequences of characters.
pub struct ConfigView {
    pub log_level: Seq<char>,
    pub eth_node_wss_url: Seq<char>,
    pub eth_contract_address: Seq<char>,
    pub azero_node_wss_url: Seq<char>,
    pub azero_sudo_seed: Seq<char>,
    pub eth_from_block: usize,
}

impl View for Config {
    type V = ConfigView;

    open spec fn view(&self) -> ConfigView {
        ConfigView {
            log_level: self.log_level@,
            eth_node_wss_url: self.eth_node_wss_url@,
            eth_contract_address: self.eth_contract_address@,
            azero_node_wss_url: self.azero_node_wss_url@,
            azero_sudo_seed: self.azero_sudo_seed@,
            eth_from_block: self.eth_from_block,
        }
    }
}

/// The value of a variable: what the environment holds, else the default.
pub open spec fn value_or(found: Option<String>, default: Seq<char>) -> Seq<char> {
    match found {
        Some(value) => value@,
        None => default,
    }
}

/// Whether `c` is one of the digits `0` to `9`.
pub open spec fn is_digit(c: char) -> bool {
    '0' <= c <= '9'
}

/// Whether `text` is made of digits only.
pub open spec fn all_digits(text: Seq<char>) -> bool {
    forall|i: int| 0 <= i < text.len() ==> is_digit(#[trigger] text[i])
}

/// The number that a text of digits writes in base ten.
pub open spec fn digits_value(text: Seq<char>) -> nat
    decreases text.len(),
{
    if text.len() == 0 {
        0
    } else {
        digits_value(text.drop_last()) * 10 + (text.last() as nat - '0' as nat) as nat
    }
}

/// The digits of a text that writes a number: the text itself, without a leading `+`.
pub open spec fn unsigned_part(text: Seq<char>) -> Seq<char> {
    if text.len() > 0 && text[0] == '+' {
        text.drop_first()
    } else {
        text
    }
}

/// The number that `text` writes: one or more digits, which a `+` may
/// precede, whose value fits the machine's word. Any other text writes none.
pub open spec fn decimal_value(text: Seq<char>) -> Option<usize> {
    let digits = unsigned_part(text);
    if digits.len() == 0 || !all_digits(digits) || digits_value(digits) > usize::MAX {
        None
    } else {
        Some(digits_value(digits) as usize)
    }
}

/// The configuration that the variables yield: each variable's value or its
/// default. There is none where `ETH_CONTRACT_ADDRESS` is not set, or where
/// `ETH_FROM_BLOCK` does not write a number.
pub open spec fn configuration(vars: Variables) -> Option<ConfigView> {
    match (vars.eth_contract_address, decimal_value(value_or(vars.eth_from_block, "0"@))) {
        (Some(address), Some(block)) => Some(
            ConfigView {
                log_level: value_or(vars.log_level, "info"@),
                eth_node_wss_url: value_or(vars.eth_wss_url, "ws://127.0.0.1:8546"@),
                eth_contract_address: address@,
                azero_node_wss_url: value_or(vars.azero_wss_url, "ws://127.0.0.1:9944"@),
                azero_sudo_seed: value_or(vars.azero_sudo_seed, "//Alice"@),
                eth_from_block: block,
            },
        ),
        _ => None,
    }
}

/// Longer texts of digits write larger numbers.
proof fn lemma_digits_value_grows(text: Seq<char>, k: int)
    requires
        0 <= k <= text.len(),
    ensures
        digits_value(text.take(k)) <= digits_value(text),
    decreases text.len() - k,
{
    if k == text.len() {
        assert(text.take(k) == text);
    } else {
        lemma_digits_value_grows(text, k + 1);
        assert(text.take(k + 1).drop_last() == text.take(k));
    }
}

/// Reads the number that `text` writes in base ten.
#[verifier::loop_isolation(false)]
pub fn parse_decimal(text: &str) -> (r: Option<usize>)
    ensures
        r == decimal_value(text@),
{
    let n = text.unicode_len();
    let start: usize = if n > 0 && text.get_char(0) == '+' {
        1
    } else {
        0
    };
    if start == n {
        return None;
    }
    let ghost digits = unsigned_part(text@);
    assert(digits == text@.skip(start as int));
    let mut value: usize = 0;
    let mut i: usize = start;
    while i < n
        invariant
            start <= i <= n,
            n == text@.len(),
            digits == text@.skip(start as int),
            all_digits(digits.take(i - start)),
            value == digits_value(digits.take(i - start)),
        decreases n - i,
    {
        let c = text.get_char(i);
        assert(c == digits[i - start]);
        if c < '0' || c > '9' {
            assert(!is_digit(digits[i - start]));
            return None;
        }
        let digit = (c as u32 - '0' as u32) as usize;
        proof {
            assert(digits.take(i - start + 1).drop_last() == digits.take(i - start));
            assert(digits.take(i - start + 1).last() == c);
            assert(digits_value(digits.take(i - start + 1)) == value * 10 + digit);
            lemma_digits_value_grows(digits, i - start + 1);
            assert forall|j: int| 0 <= j < i - start + 1 implies is_digit(
                #[trigger] digits.take(i - start + 1)[j],
            ) by {
                if j < i - start {
                    assert(digits.take(i - start)[j] == digits.take(i - start + 1)[j]);
                }
            }
        }
        let shifted = match value.checked_mul(10) {
            Some(shifted) => shifted,
            None => {
                assert(all_digits(digits) ==> digits_value(digits) > usize::MAX);
                return None;
            },
        };
        value = match shifted.checked_add(digit) {
            Some(next) => next,
            None => {
                assert(all_digits(digits) ==> digits_value(digits) > usize::MAX);
                return None;
            },
        };
        i = i + 1;
    }
    assert(digits.take(n - start) == digits);
    Some(value)
}

/// The value of a variable: what the environment holds for it, else the
/// default. One of the two must be there.
pub fn get_env_var(found: Option<String>, default: Option<&str>) -> (value: String)
    requires
        found is Some || default is Some,
    ensures
        value@ == (match found {
            Some(v) => v@,
            None => default->Some_0@,
        }),
{
    match found {
        Some(v) => v,
        None => match default {
            Some(d) => d.to_owned(),
            None => String::new(),
        },
    }
}

/// A configuration that can be made from the variables of the environment.
pub trait Load: Sized {
    /// Whether the variables yield a configuration.
    spec fn loadable(vars: Variables) -> bool;

    /// The configuration that the variables yield.
    fn load(vars: Variables) -> (config: Self)
        requires
            Self::loadable(vars),
    ;
}

impl Config {
    /// The configuration that the variables yield, if they yield one.
    pub fn try_load(vars: Variables) -> (r: Option<Config>)
        ensures
            (match configuration(vars) {
                Some(config) => r is Some && r->Some_0@ == config,
                None => r is None,
            }),
    {
        let eth_contract_address = vars.eth_contract_address?;
        let from_block = get_env_var(vars.eth_from_block, Some("0"));
        let eth_from_block = parse_decimal(from_block.as_str())?;
        Some(
            Config {
                log_level: get_env_var(vars.log_level, Some("info")),
                eth_node_wss_url: get_env_var(vars.eth_wss_url, Some("ws://127.0.0.1:8546")),
                azero_node_wss_url: get_env_var(vars.azero_wss_url, Some("ws://127.0.0.1:9944")),
                azero_sudo_seed: get_env_var(vars.azero_sudo_seed, Some("//Alice")),
                eth_contract_address,
                eth_from_block,
            },
        )
    }
}

impl Load for Config {
    open spec fn loadable(vars: Variables) -> bool {
        configuration(vars) is Some
    }

    fn load(vars: Variables) -> (config: Config)
        ensures
            Some(config@) == configuration(vars),
    {
        Config::try_load(vars).unwrap()
    }
}

} // verus!
