use hass_bridge::address::listen_address_text;
use hass_bridge::config::Configuration;
use hass_bridge::notify::notification_body;

fn sample() -> Configuration {
    Configuration::new(
        120,
        2,
        "127.0.0.1".to_string(),
        "8080".to_string(),
        "abcdef1234".to_string(),
    )
}

#[test]
fn address_joins_ip_and_port() {
    assert_eq!(listen_address_text("127.0.0.1", "8080"), "127.0.0.1:8080");
    assert_eq!(listen_address_text("::1", "80"), "::1:80");
    assert_eq!(listen_address_text("", ""), ":");
}

#[test]
fn configuration_listen_address() {
    assert_eq!(sample().listen_address(), "127.0.0.1:8080");
}

#[test]
fn configuration_masked_token() {
    let c = sample();
    assert_eq!(c.masked_token(), "******1234");
    assert_eq!(c.hass_token, "abcdef1234");
}

#[test]
fn configuration_fields() {
    let c = sample();
    assert_eq!(c.floor_area, 120);
    assert_eq!(c.stories, 2);
    assert_eq!(c.listen_ip, "127.0.0.1");
    assert_eq!(c.port, "8080");
}

#[test]
fn configuration_notification_uses_token() {
    let r = sample().notification("http://h/api", "payload");
    assert_eq!(r.url, "http://h/api");
    assert_eq!(r.authorization, "abcdef1234");
    assert_eq!(r.content_type, "application/json");
    assert_eq!(r.body, notification_body("payload"));
}
