use relay_core::config::{RelayConfig, DEFAULT_BUFFER_SIZE, DEFAULT_DIAL_TIMEOUT_MS};

#[test]
fn default_config_has_the_stock_values() {
    let config = RelayConfig::default();
    assert_eq!(config.dial_timeout_ms, 15_000);
    assert_eq!(config.buffer_size, 1024);
    assert_eq!(DEFAULT_DIAL_TIMEOUT_MS, 15_000);
    assert_eq!(DEFAULT_BUFFER_SIZE, 1024);
}

#[test]
fn config_keeps_what_it_is_given() {
    let config = RelayConfig::new(250, 16);
    assert_eq!(config, RelayConfig { dial_timeout_ms: 250, buffer_size: 16 });
}

#[test]
fn config_accepts_a_zero_timeout_and_a_one_byte_buffer() {
    let config = RelayConfig::new(0, 1);
    assert_eq!(config.dial_timeout_ms, 0);
    assert_eq!(config.buffer_size, 1);
}
