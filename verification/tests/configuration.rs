use comm_messenger::configuration::{Configuration, ConfigurationError};

fn text(s: &str) -> Option<String> {
    Some(String::from(s))
}

#[test]
fn empty_configuration_has_nothing_set() {
    let configuration = Configuration::empty();
    assert_eq!(configuration.secret(), &None);
    assert_eq!(configuration.router(), &None);
    assert_eq!(configuration.port(), &None);
}

#[test]
fn update_replaces_all_settings() {
    let mut configuration = Configuration::empty();
    configuration.update(text("abc"), text("10.0.0.1:6667"), Some(9000));
    assert_eq!(configuration.secret(), &text("abc"));
    assert_eq!(configuration.router(), &text("10.0.0.1:6667"));
    assert_eq!(configuration.port(), &Some(9000));
    configuration.update(text("xyz"), None, None);
    assert_eq!(configuration.secret(), &text("xyz"));
    assert_eq!(configuration.router(), &None);
    assert_eq!(configuration.port(), &None);
}

#[test]
fn check_accepts_a_secret_and_a_port() {
    let mut configuration = Configuration::empty();
    configuration.update(text("abc"), None, Some(9000));
    assert_eq!(configuration.check(), Ok(()));
    configuration.update(text("abc"), text("router:1"), Some(0));
    assert_eq!(configuration.check(), Ok(()));
}

#[test]
fn check_refuses_a_missing_secret() {
    let mut configuration = Configuration::empty();
    configuration.update(None, text("router:1"), Some(9000));
    assert_eq!(configuration.check(), Err(ConfigurationError::InvalidSecret));
}

#[test]
fn check_refuses_an_empty_secret() {
    let mut configuration = Configuration::empty();
    configuration.update(text(""), None, Some(9000));
    assert_eq!(configuration.check(), Err(ConfigurationError::InvalidSecret));
}

#[test]
fn check_refuses_a_missing_port() {
    let mut configuration = Configuration::empty();
    configuration.update(text("abc"), None, None);
    assert_eq!(configuration.check(), Err(ConfigurationError::InvalidPort));
}

#[test]
fn check_looks_at_the_secret_first() {
    assert_eq!(
        Configuration::empty().check(),
        Err(ConfigurationError::InvalidSecret)
    );
}

#[test]
fn configuration_errors_in_words() {
    assert_eq!(
        ConfigurationError::InvalidSecret.message(),
        "Invalid secret provided"
    );
    assert_eq!(
        ConfigurationError::InvalidPort.message(),
        "Invalid port provided"
    );
}

#[test]
fn port_from_text_reads_decimal_numbers() {
    assert_eq!(Configuration::port_from_text("9000"), Some(9000));
    assert_eq!(Configuration::port_from_text("0"), Some(0));
    assert_eq!(Configuration::port_from_text("+80"), Some(80));
    assert_eq!(Configuration::port_from_text("00080"), Some(80));
    assert_eq!(Configuration::port_from_text("65535"), Some(65535));
    assert_eq!(Configuration::port_from_text("0000065535"), Some(65535));
}

#[test]
fn port_from_text_refuses_everything_else() {
    assert_eq!(Configuration::port_from_text(""), None);
    assert_eq!(Configuration::port_from_text("+"), None);
    assert_eq!(Configuration::port_from_text("65536"), None);
    assert_eq!(Configuration::port_from_text("99999999999999999999"), None);
    assert_eq!(Configuration::port_from_text("-1"), None);
    assert_eq!(Configuration::port_from_text("-0"), None);
    assert_eq!(Configuration::port_from_text("++1"), None);
    assert_eq!(Configuration::port_from_text("12a"), None);
    assert_eq!(Configuration::port_from_text(" 80"), None);
    assert_eq!(Configuration::port_from_text("80 "), None);
    assert_eq!(Configuration::port_from_text("8 0"), None);
    assert_eq!(Configuration::port_from_text("\u{663}"), None);
    assert_eq!(Configuration::port_from_text("+\u{e9}"), None);
}

#[test]
fn port_from_text_agrees_with_the_standard_parser() {
    let samples = [
        "", "+", "-", "0", "7", "+7", "-7", "007", "65535", "65536", "655350", "1e3", "0x10",
        "12345", "+65535", "+65536", " 1", "1 ", "\u{661}\u{662}", "4294967296",
    ];
    for sample in samples.iter() {
        assert_eq!(
            Configuration::port_from_text(sample),
            sample.parse::<u16>().ok()
        );
    }
}

#[test]
fn update_from_text_sets_the_port_only_if_it_names_one() {
    let mut configuration = Configuration::empty();
    configuration.update_from_text(text("abc"), text("router:1"), text("9000"));
    assert_eq!(configuration.secret(), &text("abc"));
    assert_eq!(configuration.router(), &text("router:1"));
    assert_eq!(configuration.port(), &Some(9000));
    configuration.update_from_text(text("abc"), None, text("nine thousand"));
    assert_eq!(configuration.router(), &None);
    assert_eq!(configuration.port(), &None);
    configuration.update_from_text(None, None, None);
    assert_eq!(configuration, Configuration::empty());
}
