use webserver::parse_port;
use webserver::Config;

#[test]
fn absent_arguments_fall_back_to_the_defaults() {
    let config = Config::new(None, None).unwrap();
    assert_eq!("127.0.0.1", config.address);
    assert_eq!(8080, config.port);
}

#[test]
fn supplied_arguments_are_taken_over() {
    let config = Config::new(Some("0.0.0.0".to_string()), Some("9999".to_string())).unwrap();
    assert_eq!("0.0.0.0", config.address);
    assert_eq!(9999, config.port);
}

#[test]
fn an_invalid_port_is_a_startup_error() {
    assert!(Config::new(None, Some("not-a-port".to_string())).is_err());
    assert!(Config::new(None, Some("".to_string())).is_err());
    assert!(Config::new(None, Some("65536".to_string())).is_err());
}

#[test]
fn ports_parse_as_decimal_with_a_u16_bound() {
    assert_eq!(Some(80), parse_port("80"));
    assert_eq!(Some(80), parse_port("080"));
    assert_eq!(Some(0), parse_port("0"));
    assert_eq!(Some(65535), parse_port("65535"));
    assert_eq!(None, parse_port("65536"));
    assert_eq!(None, parse_port("123456789"));
    assert_eq!(None, parse_port(""));
    assert_eq!(None, parse_port("80a"));
    assert_eq!(None, parse_port("-1"));
}
