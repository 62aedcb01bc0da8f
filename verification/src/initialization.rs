//! The watcher's settings, as they were read, and what each of them stands
//! for once it is checked.

use crate::chain::{optional_address_view, Address};
use crate::error::{ConfigError, Setting};
use crate::uint256::Uint256;
use vstd::prelude::*;

verus! {

/// The security window, in blocks, where `block_alert_delay` is not set.
pub const DEFAULT_BLOCK_ALERT_DELAY: u64 = 50;

/// The decimals of the token, where `token_decimals` is not set.
pub const DEFAULT_TOKEN_DECIMALS: usize = 18;

/// The bytes of the address that `web3::types::H160` reads from a text, or
/// nothing where that type refuses the text. It reads hexadecimal digits and
/// takes a text that gives exactly twenty bytes.
pub uninterp spec fn parsed_address(text: Seq<char>) -> Option<Seq<u8>>;

/// `str::parse` to `web3::types::H160`, any refusal given as nothing. The
/// outcome depends on the text alone, and the contract says no more of it
/// than that: it is what `parsed_address` names.
#[verifier::external_body]
fn h160_from_str(text: &str) -> (parsed: Option<Address>)
    ensures
        optional_address_view(parsed) == parsed_address(text@),
{
    text.parse::<web3::types::H160>().ok().map(|h| Address::from_bytes(h.0))
}

/// What a setting that holds an address gives: `parsed` is nothing where the
/// setting is missing, and otherwise what parsing its text gave.
pub fn required_address(setting: Setting, parsed: Option<Option<Address>>) -> (address: Result<
    Address,
    ConfigError,
>)
    ensures
        address == match parsed {
            None => Err::<Address, ConfigError>(ConfigError::Missing(setting)),
            Some(None) => Err::<Address, ConfigError>(ConfigError::Unparseable(setting)),
            Some(Some(a)) => Ok::<Address, ConfigError>(a),
        },
{
    match parsed {
        None => Err(ConfigError::Missing(setting)),
        Some(None) => Err(ConfigError::Unparseable(setting)),
        Some(Some(a)) => Ok(a),
    }
}

/// What a setting that holds an address gives, in terms of its text.
pub open spec fn address_of(setting: Setting, text: Option<Seq<char>>) -> Result<
    Seq<u8>,
    ConfigError,
> {
    match text {
        None => Err(ConfigError::Missing(setting)),
        Some(t) => match parsed_address(t) {
            None => Err(ConfigError::Unparseable(setting)),
            Some(a) => Ok(a),
        },
    }
}

/// The view of the outcome of reading an address.
pub open spec fn address_result_view(address: Result<Address, ConfigError>) -> Result<
    Seq<u8>,
    ConfigError,
> {
    match address {
        Ok(a) => Ok(a@),
        Err(e) => Err(e),
    }
}

/// The view of an optional text.
pub open spec fn optional_text_view(text: Option<String>) -> Option<Seq<char>> {
    match text {
        Some(t) => Some(t@),
        None => None,
    }
}

/// The settings as the contracts see them.
pub struct InitView {
    pub node_endpoint: Option<Seq<char>>,
    pub recipient_address: Option<Seq<char>>,
    pub round_manager_proxy_address: Option<Seq<char>>,
    pub bonding_manager_proxy_address: Option<Seq<char>>,
    pub current_round_transaction_done: Option<bool>,
    pub block_alert_delay: Option<i64>,
    pub token_decimals: Option<i64>,
}

/// The settings as they were read: each is there or not, and nothing is
/// checked yet.
#[derive(Debug)]
pub struct Init {
    node_endpoint: Option<String>,
    recipient_address: Option<String>,
    round_manager_proxy_address: Option<String>,
    bonding_manager_proxy_address: Option<String>,
    current_round_transaction_done: Option<bool>,
    block_alert_delay: Option<i64>,
    token_decimals: Option<i64>,
}

impl View for Init {
    type V = InitView;

    closed spec fn view(&self) -> InitView {
        InitView {
            node_endpoint: optional_text_view(self.node_endpoint),
            recipient_address: optional_text_view(self.recipient_address),
            round_manager_proxy_address: optional_text_view(self.round_manager_proxy_address),
            bonding_manager_proxy_address: optional_text_view(self.bonding_manager_proxy_address),
            current_round_transaction_done: self.current_round_transaction_done,
            block_alert_delay: self.block_alert_delay,
            token_decimals: self.token_decimals,
        }
    }
}

impl Init {
    /// The settings with the values that were read.
    pub fn new(
        node_endpoint: Option<String>,
        recipient_address: Option<String>,
        round_manager_proxy_address: Option<String>,
        bonding_manager_proxy_address: Option<String>,
        current_round_transaction_done: Option<bool>,
        block_alert_delay: Option<i64>,
        token_decimals: Option<i64>,
    ) -> (init: Init)
        ensures
            init@ == (InitView {
                node_endpoint: optional_text_view(node_endpoint),
                recipient_address: optional_text_view(recipient_address),
                round_manager_proxy_address: optional_text_view(round_manager_proxy_address),
                bonding_manager_proxy_address: optional_text_view(bonding_manager_proxy_address),
                current_round_transaction_done,
                block_alert_delay,
                token_decimals,
            }),
    {
        Init {
            node_endpoint,
            recipient_address,
            round_manager_proxy_address,
            bonding_manager_proxy_address,
            current_round_transaction_done,
            block_alert_delay,
            token_decimals,
        }
    }

    /// The address of the node to connect to.
    pub fn node_endpoint(&self) -> (endpoint: Result<String, ConfigError>)
        ensures
            match endpoint {
                Ok(text) => self@.node_endpoint == Some(text@),
                Err(e) => self@.node_endpoint is None && e == ConfigError::Missing(
                    Setting::NodeEndpoint,
                ),
            },
    {
        match &self.node_endpoint {
            Some(text) => Ok(text.clone()),
            None => Err(ConfigError::Missing(Setting::NodeEndpoint)),
        }
    }

    /// The watched address: the one that receives the reward.
    pub fn load_transcoder_address(&self) -> (address: Result<Address, ConfigError>)
        ensures
            address_result_view(address) == address_of(
                Setting::RecipientAddress,
                self@.recipient_address,
            ),
    {
        match &self.recipient_address {
            Some(text) => required_address(
                Setting::RecipientAddress,
                Some(h160_from_str(text.as_str())),
            ),
            None => required_address(Setting::RecipientAddress, None),
        }
    }

    /// The address of the round manager's contract.
    pub fn round_manager_proxy_address(&self) -> (address: Result<Address, ConfigError>)
        ensures
            address_result_view(address) == address_of(
                Setting::RoundManagerProxyAddress,
                self@.round_manager_proxy_address,
            ),
    {
        match &self.round_manager_proxy_address {
            Some(text) => required_address(
                Setting::RoundManagerProxyAddress,
                Some(h160_from_str(text.as_str())),
            ),
            None => required_address(Setting::RoundManagerProxyAddress, None),
        }
    }

    /// The address of the bonding manager's contract.
    pub fn bonding_manager_proxy_address(&self) -> (address: Result<Address, ConfigError>)
        ensures
            address_result_view(address) == address_of(
                Setting::BondingManagerProxyAddress,
                self@.bonding_manager_proxy_address,
            ),
    {
        match &self.bonding_manager_proxy_address {
            Some(text) => required_address(
                Setting::BondingManagerProxyAddress,
                Some(h160_from_str(text.as_str())),
            ),
            None => required_address(Setting::BondingManagerProxyAddress, None),
        }
    }

    /// Whether the reward transaction of the round that is running at
    /// startup was made already.
    pub fn transaction_state(&self) -> (done: Result<bool, ConfigError>)
        ensures
            done == match self@.current_round_transaction_done {
                Some(state) => Ok::<bool, ConfigError>(state),
                None => Err::<bool, ConfigError>(
                    ConfigError::Missing(Setting::CurrentRoundTransactionDone),
                ),
            },
    {
        match self.current_round_transaction_done {
            Some(state) => Ok(state),
            None => Err(ConfigError::Missing(Setting::CurrentRoundTransactionDone)),
        }
    }

    /// The security window in blocks: `block_alert_delay` where it is set,
    /// and `DEFAULT_BLOCK_ALERT_DELAY` where it is not. A negative delay is
    /// refused.
    pub fn safety_window(&self) -> (window: Result<Uint256, ConfigError>)
        ensures
            match self@.block_alert_delay {
                None => window is Ok && window->Ok_0@ == DEFAULT_BLOCK_ALERT_DELAY,
                Some(delay) => if delay >= 0 {
                    window is Ok && window->Ok_0@ == delay
                } else {
                    window == Err::<Uint256, ConfigError>(
                        ConfigError::Unparseable(Setting::BlockAlertDelay),
                    )
                },
            },
    {
        match self.block_alert_delay {
            None => Ok(Uint256::from_u64(DEFAULT_BLOCK_ALERT_DELAY)),
            Some(delay) => if delay >= 0 {
                Ok(Uint256::from_u64(delay as u64))
            } else {
                Err(ConfigError::Unparseable(Setting::BlockAlertDelay))
            },
        }
    }

    /// The decimals with which token amounts are rendered: `token_decimals`
    /// where it is set, and `DEFAULT_TOKEN_DECIMALS` where it is not. A
    /// number that is negative or beyond `usize` is refused.
    pub fn token_decimals(&self) -> (decimals: Result<usize, ConfigError>)
        ensures
            decimals == match self@.token_decimals {
                None => Ok::<usize, ConfigError>(DEFAULT_TOKEN_DECIMALS),
                Some(number) => if 0 <= number <= usize::MAX {
                    Ok::<usize, ConfigError>(number as usize)
                } else {
                    Err::<usize, ConfigError>(ConfigError::Unparseable(Setting::TokenDecimals))
                },
            },
    {
        match self.token_decimals {
            None => Ok(DEFAULT_TOKEN_DECIMALS),
            Some(number) => if number >= 0 && number as u64 <= usize::MAX as u64 {
                Ok(number as usize)
            } else {
                Err(ConfigError::Unparseable(Setting::TokenDecimals))
            },
        }
    }
}

} // verus!
