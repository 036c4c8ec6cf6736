use totpgen::config::{TOTPGenConfig, TokenConfig};
use totpgen::totp::ConfigError;

fn record(secret: &str, digits: usize, timestep: u64) -> TokenConfig {
    TokenConfig {
        secret: String::from(secret),
        digits,
        timestep,
        format: None,
    }
}

#[test]
fn default_registry_is_empty() {
    let config = TOTPGenConfig::default();
    assert!(config.tokens.is_empty());
}

#[test]
fn registry_holds_records_by_name() {
    let mut config = TOTPGenConfig::default();
    config
        .tokens
        .insert(String::from("mail"), record("potato", 6, 30));
    let found = config.tokens.get("mail").unwrap();
    assert_eq!(found.secret, "potato");
    assert_eq!(found.digits, 6);
    assert_eq!(found.timestep, 30);
    assert!(found.format.is_none());
    assert!(config.tokens.get("bank").is_none());
}

#[test]
fn record_gives_its_generator() {
    let config = record("potato", 6, 30);
    let totp = config.totp().unwrap();
    assert_eq!(totp.secret, &b"potato"[..]);
    assert_eq!(totp.digits, 6);
    assert_eq!(totp.timestep, 30);
    assert_eq!(totp.generate_token_at_time(1000), "909468");
}

#[test]
fn record_keys_with_the_utf8_bytes_of_the_secret() {
    let config = record("pässwörd", 6, 30);
    let totp = config.totp().unwrap();
    assert_eq!(totp.secret, "pässwörd".as_bytes());
    assert_eq!(totp.secret.len(), 10);
    assert_eq!(totp.generate_token_at_time(1000), "849554");
}

#[test]
fn record_with_bad_parameters_gives_no_generator() {
    assert_eq!(
        record("potato", 6, 0).totp().err(),
        Some(ConfigError::ZeroTimestep)
    );
    assert_eq!(
        record("potato", 0, 30).totp().err(),
        Some(ConfigError::ZeroDigits)
    );
    assert_eq!(
        record("potato", 20, 30).totp().err(),
        Some(ConfigError::TooManyDigits)
    );
    assert_eq!(
        record("potato", 0, 0).totp().err(),
        Some(ConfigError::ZeroTimestep)
    );
}

#[test]
fn record_prints_for_debugging() {
    let text = format!("{:?}", record("potato", 6, 30));
    assert!(text.contains("TokenConfig"));
    assert!(text.contains("digits: 6"));
    assert!(text.contains("timestep: 30"));
}
