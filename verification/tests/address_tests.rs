use service_lifecycle::address::{Scheme, ServiceAddress};
use service_lifecycle::config::ServerSettings;
use service_lifecycle::decimal::{append_decimal, decimal_text};

#[test]
fn composed_address_for_wildcard_bind() {
    let address = ServiceAddress::compose("0.0.0.0", 3002, false, "/app");
    assert_eq!(address.render(), "http://localhost:3002/app");
}

#[test]
fn secure_service_is_composed_with_https() {
    let address = ServiceAddress::compose("0.0.0.0", 3001, true, "/app");
    assert_eq!(address.scheme(), Scheme::Https);
    assert_eq!(address.scheme().as_str(), "https");
    assert_eq!(address.render(), "https://localhost:3001/app");
    assert!(address.render().starts_with("https://"));
}

#[test]
fn insecure_service_is_composed_with_http() {
    let address = ServiceAddress::compose("example.org", 80, false, "/");
    assert_eq!(address.scheme(), Scheme::Http);
    assert_eq!(address.scheme().as_str(), "http");
    assert_eq!(address.render(), "http://example.org:80/");
    assert!(!address.render().starts_with("https://"));
}

#[test]
fn scheme_follows_the_security_label_only() {
    for host in ["0.0.0.0", "127.0.0.1", "example.org", ""] {
        for port in [0u16, 1, 443, 8080, 65535] {
            for path in ["", "/", "/app"] {
                assert_eq!(ServiceAddress::compose(host, port, true, path).scheme(), Scheme::Https);
                assert_eq!(ServiceAddress::compose(host, port, false, path).scheme(), Scheme::Http);
            }
        }
    }
    assert_eq!(Scheme::for_security(true), Scheme::Https);
    assert_eq!(Scheme::for_security(false), Scheme::Http);
}

#[test]
fn wildcard_host_is_shown_as_localhost() {
    let address = ServiceAddress::compose("0.0.0.0", 3002, false, "/app");
    assert_eq!(address.host(), "localhost");
    assert_ne!(address.host(), "0.0.0.0");
    assert!(!address.render().contains("0.0.0.0"));
}

#[test]
fn other_hosts_are_shown_verbatim() {
    assert_eq!(ServiceAddress::compose("127.0.0.1", 3002, false, "/app").host(), "127.0.0.1");
    assert_eq!(ServiceAddress::compose("10.0.0.7", 3002, false, "/app").host(), "10.0.0.7");
    assert_eq!(ServiceAddress::compose("0.0.0.00", 3002, false, "/app").host(), "0.0.0.00");
    assert_eq!(ServiceAddress::compose("", 3002, false, "/app").host(), "");
    assert_eq!(
        ServiceAddress::compose("svc.internal", 8443, true, "/x/y").render(),
        "https://svc.internal:8443/x/y"
    );
}

#[test]
fn address_parts_are_kept() {
    let address = ServiceAddress::compose("192.168.1.5", 65535, true, "/portal");
    assert_eq!(address.scheme(), Scheme::Https);
    assert_eq!(address.host(), "192.168.1.5");
    assert_eq!(address.port(), 65535);
    assert_eq!(address.path(), "/portal");
    assert_eq!(address.render(), "https://192.168.1.5:65535/portal");
}

#[test]
fn empty_path_and_port_zero_are_rendered() {
    assert_eq!(ServiceAddress::compose("0.0.0.0", 0, false, "").render(), "http://localhost:0");
}

#[test]
fn decimal_text_of_single_digits() {
    let expected = ["0", "1", "2", "3", "4", "5", "6", "7", "8", "9"];
    for (digit, text) in expected.iter().enumerate() {
        assert_eq!(decimal_text(digit as u64), *text);
    }
}

#[test]
fn decimal_text_of_larger_numbers() {
    assert_eq!(decimal_text(10), "10");
    assert_eq!(decimal_text(99), "99");
    assert_eq!(decimal_text(100), "100");
    assert_eq!(decimal_text(3002), "3002");
    assert_eq!(decimal_text(65535), "65535");
    assert_eq!(decimal_text(1_000_000), "1000000");
    assert_eq!(decimal_text(u64::MAX), "18446744073709551615");
}

#[test]
fn decimal_text_agrees_with_std_formatting() {
    for port in 0..=u16::MAX {
        assert_eq!(decimal_text(port as u64), format!("{}", port));
    }
}

#[test]
fn append_decimal_keeps_what_was_there() {
    let mut text = String::from("port=");
    append_decimal(&mut text, 8080);
    assert_eq!(text, "port=8080");
    append_decimal(&mut text, 0);
    assert_eq!(text, "port=80800");
}

#[test]
fn settings_give_the_bind_target() {
    let settings = ServerSettings::new(String::from("0.0.0.0"), 3002, false);
    assert_eq!(settings.get_tcp_listener(), "0.0.0.0:3002");
    assert_eq!(settings.get_port(), 3002);
    assert!(!settings.is_secure());
    let secure = ServerSettings::new(String::from("127.0.0.1"), 0, true);
    assert_eq!(secure.get_tcp_listener(), "127.0.0.1:0");
    assert_eq!(secure.get_port(), 0);
    assert!(secure.is_secure());
}

#[test]
fn settings_keep_their_fields() {
    let settings = ServerSettings::new(String::from("10.1.2.3"), 65535, true);
    assert_eq!(settings.bind_address, "10.1.2.3");
    assert_eq!(settings.port, 65535);
    assert!(settings.secure);
    assert_eq!(settings.get_tcp_listener(), "10.1.2.3:65535");
}
