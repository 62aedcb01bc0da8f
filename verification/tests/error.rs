use livepeer_monitor::error::{ConfigError, Setting, WatchError};

#[test]
fn watch_errors_have_their_messages() {
    assert_eq!(WatchError::SkippedRoundError.message(), "Skipped a round in LPT rewards");
    assert_eq!(WatchError::ChainQueryError.message(), "Cannot query the round manager");
    assert_eq!(WatchError::SubscriptionDropped.message(), "A subscription ended");
    assert_eq!(
        WatchError::UnexpectedEvent.message(),
        "An answer arrived that was not asked for"
    );
}

#[test]
fn settings_have_their_keys() {
    assert_eq!(Setting::NodeEndpoint.key(), "node_endpoint");
    assert_eq!(Setting::RecipientAddress.key(), "recipient_address");
    assert_eq!(Setting::RoundManagerProxyAddress.key(), "round_manager_proxy_address");
    assert_eq!(Setting::BondingManagerProxyAddress.key(), "bonding_manager_proxy_address");
    assert_eq!(Setting::CurrentRoundTransactionDone.key(), "current_round_transaction_done");
    assert_eq!(Setting::BlockAlertDelay.key(), "block_alert_delay");
    assert_eq!(Setting::TokenDecimals.key(), "token_decimals");
}

#[test]
fn config_errors_name_the_setting() {
    assert_eq!(
        ConfigError::Missing(Setting::NodeEndpoint).message(),
        "Cannot load node_endpoint from config"
    );
    assert_eq!(
        ConfigError::Unparseable(Setting::RecipientAddress).message(),
        "Cannot parse recipient_address"
    );
}
