use kinly::launchserver::socket::options::{SocketOptions, SocketOptionsBuilder, DEFAULT_TIMEOUT_MS};

#[test]
fn builder_starts_empty() {
    let builder: SocketOptionsBuilder = SocketOptions::builder();
    assert_eq!(builder.timeout, None);
    assert_eq!(builder.reconnection_timeout, None);
}

#[test]
fn build_without_settings_uses_five_seconds() {
    let options = SocketOptions::builder().build();
    assert_eq!(DEFAULT_TIMEOUT_MS, 5000);
    assert_eq!(options.timeout, 5000);
    assert_eq!(options.reconnection_timeout, 5000);
}

#[test]
fn build_keeps_configured_values() {
    let options = SocketOptions::builder()
        .with_timeout(Some(100))
        .with_reconnection_timeout(Some(250))
        .build();
    assert_eq!(options.timeout, 100);
    assert_eq!(options.reconnection_timeout, 250);
}

#[test]
fn clearing_a_setting_restores_the_default() {
    let options = SocketOptions::builder().with_timeout(Some(1)).with_timeout(None).build();
    assert_eq!(options.timeout, 5000);
}
