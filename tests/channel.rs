use sniff::channel::{str_equal, Channel};
use sniff::session::GooglePlayClient;
use sniff::resolve::next_optional_channel;
use sniff::resolve_error::ResolveError;

#[test]
fn mandatory_channel_serves_every_package() {
    for p in ["com.discord", "com.example.app", "", "COM.DISCORD"] {
        assert!(Channel::Stable.is_available_for_package(p));
    }
}

#[test]
fn optional_channels_follow_their_table() {
    assert!(Channel::Beta.is_available_for_package("com.discord"));
    assert!(Channel::Alpha.is_available_for_package("com.discord"));
    assert!(!Channel::Beta.is_available_for_package("com.example.app"));
    assert!(!Channel::Alpha.is_available_for_package("com.discord2"));
    assert!(!Channel::Beta.is_available_for_package("COM.DISCORD"));
    assert!(!Channel::Alpha.is_available_for_package(""));
}

#[test]
fn channel_names_parse_in_any_case() {
    assert_eq!(Channel::from_str("stable"), Ok(Channel::Stable));
    assert_eq!(Channel::from_str("BETA"), Ok(Channel::Beta));
    assert_eq!(Channel::from_str("AlPhA"), Ok(Channel::Alpha));
    assert_eq!(Channel::from_str("gamma"), Err("Invalid Channel: gamma".to_string()));
    assert_eq!(Channel::from_str(""), Err("Invalid Channel: ".to_string()));
}

#[test]
fn lowercase_names_parse_exactly() {
    assert_eq!(Channel::from_lowercase_name("beta"), Some(Channel::Beta));
    assert_eq!(Channel::from_lowercase_name("Beta"), None);
    assert_eq!(Channel::from_lowercase_name("stabl"), None);
}

#[test]
fn channel_names_round_trip() {
    for c in [Channel::Stable, Channel::Beta, Channel::Alpha] {
        assert_eq!(Channel::from_str(c.name()), Ok(c));
    }
}

#[test]
fn next_optional_channel_skips_ineligible() {
    assert_eq!(next_optional_channel("com.discord", Channel::Stable), Some(Channel::Beta));
    assert_eq!(next_optional_channel("com.discord", Channel::Beta), Some(Channel::Alpha));
    assert_eq!(next_optional_channel("com.discord", Channel::Alpha), None);
    assert_eq!(next_optional_channel("com.example.app", Channel::Stable), None);
}

#[test]
fn string_equality_is_exact() {
    assert!(str_equal("abc", "abc"));
    assert!(!str_equal("abc", "abd"));
    assert!(!str_equal("abc", "ab"));
    assert!(str_equal("", ""));
}

#[test]
fn client_errors_carry_channel() {
    let c = GooglePlayClient::new("dev", "e@x.com", "tok", Channel::Alpha);
    assert_eq!(c.device_name, "dev");
    assert_eq!(c.email, "e@x.com");
    assert_eq!(c.aas_token, "tok");
    assert!(matches!(
        c.login_failed("no".to_string()),
        ResolveError::Init { channel: Channel::Alpha, .. }
    ));
    assert_eq!(c.request_failed("boom".to_string()).message(), "API error for alpha channel: boom");
}
