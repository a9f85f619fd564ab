use rock5::config::Config;

#[test]
fn host_str_joins_host_and_port() {
    let mut c = Config::new("0.0.0.0".to_string(), 1080);
    assert_eq!(c.get_host_str(), "0.0.0.0:1080");
}

#[test]
fn host_str_keeps_configured_values() {
    let mut c = Config::new("127.0.0.1".to_string(), 9);
    assert_eq!(c.get_host_str(), "127.0.0.1:9");
    assert_eq!(c.get_host_str(), "127.0.0.1:9");
}

#[test]
fn host_str_renders_port_zero() {
    let mut c = Config::new("localhost".to_string(), 0);
    assert_eq!(c.get_host_str(), "localhost:0");
}

#[test]
fn host_str_renders_negative_port() {
    let mut c = Config::new("h".to_string(), -5);
    assert_eq!(c.get_host_str(), "h:-5");
}

#[test]
fn host_str_renders_extreme_ports() {
    let mut c = Config::new("h".to_string(), i32::MAX);
    assert_eq!(c.get_host_str(), "h:2147483647");
    let mut c = Config::new("h".to_string(), i32::MIN);
    assert_eq!(c.get_host_str(), "h:-2147483648");
}
