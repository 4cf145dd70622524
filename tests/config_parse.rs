use txrx::args::{resolve_args, DEFAULT_TIMEOUT_MS};
use txrx::config::{
    parse_config, CharSize, ConfigError, Parity, PortConfig, StopBits, DEFAULT_CONFIG,
};

#[test]
fn parse_8n1() {
    assert_eq!(
        parse_config("8N1"),
        Ok(PortConfig {
            char_size: CharSize::Bits8,
            parity: Parity::Disabled,
            stop_bits: StopBits::One
        })
    );
}

#[test]
fn parse_7e2_and_5o1() {
    assert_eq!(
        parse_config("7E2"),
        Ok(PortConfig {
            char_size: CharSize::Bits7,
            parity: Parity::Even,
            stop_bits: StopBits::Two
        })
    );
    assert_eq!(
        parse_config("5O1"),
        Ok(PortConfig {
            char_size: CharSize::Bits5,
            parity: Parity::Odd,
            stop_bits: StopBits::One
        })
    );
    assert_eq!(parse_config("6N1").unwrap().char_size, CharSize::Bits6);
}

#[test]
fn parse_every_valid_combination() {
    for d in ['5', '6', '7', '8'] {
        for p in ['N', 'E', 'O'] {
            for s in ['1', '2'] {
                let text: String = [d, p, s].iter().collect();
                assert!(parse_config(&text).is_ok(), "{}", text);
            }
        }
    }
}

#[test]
fn parse_wrong_length() {
    for text in ["", "8", "8N", "8N12", "8N1 "] {
        assert_eq!(parse_config(text), Err(ConfigError::WrongLength), "{:?}", text);
    }
}

#[test]
fn parse_unknown_fields() {
    assert_eq!(parse_config("9N1"), Err(ConfigError::UnknownCharSize));
    assert_eq!(parse_config("4N1"), Err(ConfigError::UnknownCharSize));
    assert_eq!(parse_config("8n1"), Err(ConfigError::UnknownParity));
    assert_eq!(parse_config("8X1"), Err(ConfigError::UnknownParity));
    assert_eq!(parse_config("8N3"), Err(ConfigError::UnknownStopBits));
    assert_eq!(parse_config("8N0"), Err(ConfigError::UnknownStopBits));
    assert_eq!(parse_config("XX9"), Err(ConfigError::UnknownCharSize));
}

#[test]
fn parse_counts_characters_not_bytes() {
    assert_eq!(parse_config("8N\u{e9}"), Err(ConfigError::UnknownStopBits));
}

#[test]
fn resolve_defaults() {
    let a = resolve_args("/dev/ttyUSB0".to_string(), 9600, None, false, true, None).unwrap();
    assert_eq!(a.port, "/dev/ttyUSB0");
    assert_eq!(a.baud, 9600);
    assert_eq!(a.config, parse_config(DEFAULT_CONFIG).unwrap());
    assert_eq!(
        a.config,
        PortConfig {
            char_size: CharSize::Bits8,
            parity: Parity::Disabled,
            stop_bits: StopBits::One
        }
    );
    assert_eq!(a.timeout_ms, DEFAULT_TIMEOUT_MS);
    assert_eq!(a.timeout_ms, 1000);
    assert!(!a.quiet);
    assert!(a.stdout);
}

#[test]
fn resolve_given_values() {
    let a = resolve_args("/dev/ttyACM0".to_string(), 115200, Some("7O2"), true, false, Some(50))
        .unwrap();
    assert_eq!(a.timeout_ms, 50);
    assert_eq!(a.config.parity, Parity::Odd);
    assert!(a.quiet);
    assert!(!a.stdout);
}

#[test]
fn resolve_rejects_bad_config() {
    let r = resolve_args("/dev/ttyUSB0".to_string(), 9600, Some("8N"), false, false, None);
    assert_eq!(r.unwrap_err(), ConfigError::WrongLength);
    let r = resolve_args("/dev/ttyUSB0".to_string(), 9600, Some("8Q1"), false, false, None);
    assert_eq!(r.unwrap_err(), ConfigError::UnknownParity);
}
