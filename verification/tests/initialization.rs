use livepeer_monitor::chain::Address;
use livepeer_monitor::error::{ConfigError, Setting};
use livepeer_monitor::initialization::{
    required_address, Init, DEFAULT_BLOCK_ALERT_DELAY, DEFAULT_TOKEN_DECIMALS,
};
use livepeer_monitor::uint256::Uint256;

fn text(value: &str) -> Option<String> {
    Some(value.to_string())
}

fn empty() -> Init {
    Init::new(None, None, None, None, None, None, None)
}

fn parse_address(value: &str) -> Option<Address> {
    Init::new(None, text(value), None, None, None, None, None).load_transcoder_address().ok()
}

#[test]
fn address_is_parsed_from_forty_hex_digits() {
    let parsed = parse_address("00112233445566778899aabbccddeeff00112233");
    let bytes = [
        0x00, 0x11, 0x22, 0x33, 0x44, 0x55, 0x66, 0x77, 0x88, 0x99, 0xaa, 0xbb, 0xcc, 0xdd, 0xee,
        0xff, 0x00, 0x11, 0x22, 0x33,
    ];
    assert_eq!(parsed, Some(Address::from_bytes(bytes)));
}

#[test]
fn address_of_another_length_is_refused() {
    assert_eq!(parse_address(""), None);
    assert_eq!(parse_address("00112233"), None);
    assert_eq!(parse_address("00112233445566778899aabbccddeeff0011223344"), None);
}

#[test]
fn address_with_a_character_that_is_no_hex_digit_is_refused() {
    assert_eq!(parse_address("zz112233445566778899aabbccddeeff00112233"), None);
    assert_eq!(
        Init::new(None, text("zz"), None, None, None, None, None).load_transcoder_address(),
        Err(ConfigError::Unparseable(Setting::RecipientAddress))
    );
}

#[test]
fn required_address_tells_missing_from_unparseable() {
    let address = Address::from_bytes([1; 20]);
    assert_eq!(
        required_address(Setting::RecipientAddress, None),
        Err(ConfigError::Missing(Setting::RecipientAddress))
    );
    assert_eq!(
        required_address(Setting::RecipientAddress, Some(None)),
        Err(ConfigError::Unparseable(Setting::RecipientAddress))
    );
    assert_eq!(required_address(Setting::RecipientAddress, Some(Some(address))), Ok(address));
}

#[test]
fn settings_give_their_addresses() {
    let init = Init::new(
        text("ws://localhost:8546"),
        text("aaaaaaaaaaaaaaaaaaaaaaaaaaaaaaaaaaaaaaaa"),
        text("0101010101010101010101010101010101010101"),
        text("not an address"),
        Some(false),
        Some(12),
        Some(6),
    );
    assert_eq!(init.node_endpoint(), Ok("ws://localhost:8546".to_string()));
    assert_eq!(init.load_transcoder_address(), Ok(Address::from_bytes([0xAA; 20])));
    assert_eq!(init.round_manager_proxy_address(), Ok(Address::from_bytes([1; 20])));
    assert_eq!(
        init.bonding_manager_proxy_address(),
        Err(ConfigError::Unparseable(Setting::BondingManagerProxyAddress))
    );
    assert_eq!(init.transaction_state(), Ok(false));
    assert_eq!(init.safety_window(), Ok(Uint256::from_u64(12)));
    assert_eq!(init.token_decimals(), Ok(6));
}

#[test]
fn missing_settings_are_errors_or_defaults() {
    let init = empty();
    assert_eq!(init.node_endpoint(), Err(ConfigError::Missing(Setting::NodeEndpoint)));
    assert_eq!(
        init.load_transcoder_address(),
        Err(ConfigError::Missing(Setting::RecipientAddress))
    );
    assert_eq!(
        init.round_manager_proxy_address(),
        Err(ConfigError::Missing(Setting::RoundManagerProxyAddress))
    );
    assert_eq!(
        init.bonding_manager_proxy_address(),
        Err(ConfigError::Missing(Setting::BondingManagerProxyAddress))
    );
    assert_eq!(
        init.transaction_state(),
        Err(ConfigError::Missing(Setting::CurrentRoundTransactionDone))
    );
    assert_eq!(init.safety_window(), Ok(Uint256::from_u64(50)));
    assert_eq!(DEFAULT_BLOCK_ALERT_DELAY, 50);
    assert_eq!(init.token_decimals(), Ok(18));
    assert_eq!(DEFAULT_TOKEN_DECIMALS, 18);
}

#[test]
fn negative_numbers_are_refused() {
    let init = Init::new(None, None, None, None, None, Some(-1), Some(-1));
    assert_eq!(
        init.safety_window(),
        Err(ConfigError::Unparseable(Setting::BlockAlertDelay))
    );
    assert_eq!(
        init.token_decimals(),
        Err(ConfigError::Unparseable(Setting::TokenDecimals))
    );
    let zero = Init::new(None, None, None, None, None, Some(0), Some(0));
    assert_eq!(zero.safety_window(), Ok(Uint256::zero()));
    assert_eq!(zero.token_decimals(), Ok(0));
}
