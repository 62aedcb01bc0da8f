//! The ways in which watching can fail, and what to tell the operator of
//! each.

use vstd::prelude::*;
use vstd::string::*;

verus! {

/// A failure that ends the watch.
#[derive(Clone, Copy, Debug, PartialEq, Eq, Structural)]
pub enum WatchError {
    /// A query needed to establish the round's boundaries did not complete,
    /// or answered with values that cannot be boundaries.
    ChainQueryError,
    /// The chain's round counter advanced by more than one between two
    /// checks: the local boundaries can no longer be trusted.
    SkippedRoundError,
    /// One of the event streams ended.
    SubscriptionDropped,
    /// An event arrived that answers no request that is pending.
    UnexpectedEvent,
}

impl WatchError {
    /// What to tell the operator of the failure.
    pub open spec fn text(self) -> Seq<char> {
        match self {
            WatchError::ChainQueryError => "Cannot query the round manager"@,
            WatchError::SkippedRoundError => "Skipped a round in LPT rewards"@,
            WatchError::SubscriptionDropped => "A subscription ended"@,
            WatchError::UnexpectedEvent => "An answer arrived that was not asked for"@,
        }
    }

    /// What to tell the operator of the failure.
    pub fn message(&self) -> (message: &'static str)
        ensures
            message@ == self.text(),
    {
        match self {
            WatchError::ChainQueryError => "Cannot query the round manager",
            WatchError::SkippedRoundError => "Skipped a round in LPT rewards",
            WatchError::SubscriptionDropped => "A subscription ended",
            WatchError::UnexpectedEvent => "An answer arrived that was not asked for",
        }
    }
}

/// The settings that the watcher reads at startup.
#[derive(Clone, Copy, Debug, PartialEq, Eq, Structural)]
pub enum Setting {
    NodeEndpoint,
    RecipientAddress,
    RoundManagerProxyAddress,
    BondingManagerProxyAddress,
    CurrentRoundTransactionDone,
    BlockAlertDelay,
    TokenDecimals,
}

impl Setting {
    /// The key under which the settings file holds the setting.
    pub open spec fn key_text(self) -> Seq<char> {
        match self {
            Setting::NodeEndpoint => "node_endpoint"@,
            Setting::RecipientAddress => "recipient_address"@,
            Setting::RoundManagerProxyAddress => "round_manager_proxy_address"@,
            Setting::BondingManagerProxyAddress => "bonding_manager_proxy_address"@,
            Setting::CurrentRoundTransactionDone => "current_round_transaction_done"@,
            Setting::BlockAlertDelay => "block_alert_delay"@,
            Setting::TokenDecimals => "token_decimals"@,
        }
    }

    /// The key under which the settings file holds the setting.
    pub fn key(&self) -> (key: &'static str)
        ensures
            key@ == self.key_text(),
    {
        match self {
            Setting::NodeEndpoint => "node_endpoint",
            Setting::RecipientAddress => "recipient_address",
            Setting::RoundManagerProxyAddress => "round_manager_proxy_address",
            Setting::BondingManagerProxyAddress => "bonding_manager_proxy_address",
            Setting::CurrentRoundTransactionDone => "current_round_transaction_done",
            Setting::BlockAlertDelay => "block_alert_delay",
            Setting::TokenDecimals => "token_decimals",
        }
    }
}

/// A setting that cannot be used. It is fatal at startup.
#[derive(Clone, Copy, Debug, PartialEq, Eq, Structural)]
pub enum ConfigError {
    /// The setting is not there.
    Missing(Setting),
    /// The setting is there and cannot be read as what it stands for.
    Unparseable(Setting),
}

impl ConfigError {
    /// What to tell the operator of the setting.
    pub open spec fn text(self) -> Seq<char> {
        match self {
            ConfigError::Missing(setting) => "Cannot load "@ + setting.key_text()
                + " from config"@,
            ConfigError::Unparseable(setting) => "Cannot parse "@ + setting.key_text(),
        }
    }

    /// What to tell the operator of the setting.
    pub fn message(&self) -> (message: String)
        ensures
            message@ == self.text(),
    {
        match self {
            ConfigError::Missing(setting) => {
                let mut message = String::from_str("Cannot load ");
                message.append(setting.key());
                message.append(" from config");
                message
            },
            ConfigError::Unparseable(setting) => {
                let mut message = String::from_str("Cannot parse ");
                message.append(setting.key());
                message
            },
        }
    }
}

} // verus!
