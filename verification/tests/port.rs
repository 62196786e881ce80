use fantasia::port::{parse_port, port_text, PortParseError};

#[test]
fn parses_ports() {
    assert_eq!(parse_port("8000"), Ok(8000));
    assert_eq!(parse_port("+42"), Ok(42));
    assert_eq!(parse_port("0"), Ok(0));
    assert_eq!(parse_port("0065535"), Ok(65535));
}

#[test]
fn refuses_what_is_no_port() {
    assert_eq!(parse_port(""), Err(PortParseError::Empty));
    assert_eq!(parse_port("+"), Err(PortParseError::InvalidDigit));
    assert_eq!(parse_port("-"), Err(PortParseError::InvalidDigit));
    assert_eq!(parse_port("-1"), Err(PortParseError::InvalidDigit));
    assert_eq!(parse_port("12a"), Err(PortParseError::InvalidDigit));
    assert_eq!(parse_port(" 1"), Err(PortParseError::InvalidDigit));
    assert_eq!(parse_port("65536"), Err(PortParseError::TooLarge));
    assert_eq!(parse_port("99999x"), Err(PortParseError::TooLarge));
    assert_eq!(parse_port("6553x"), Err(PortParseError::InvalidDigit));
}

#[test]
fn errors_read_as_std_reports_them() {
    for text in ["", "+", "-5", "x", "70000", "123456789", "1é"] {
        let std_error = text.parse::<u16>().unwrap_err().to_string();
        let ours = parse_port(text).unwrap_err();
        assert_eq!(ours.message(), std_error, "for {text:?}");
    }
}

#[test]
fn agrees_with_std_parse() {
    let samples = [
        "", "+", "-", "0", "00", "+0", "++1", "+-1", "1+", "65535", "65536", "065535",
        "4294967296", "12 ", "٣", "5432", "8000", "+8000", "abc", "1_000",
    ];
    for text in samples {
        assert_eq!(parse_port(text).ok(), text.parse::<u16>().ok(), "for {text:?}");
    }
    for n in (0u32..=70000).step_by(7) {
        let text = n.to_string();
        assert_eq!(parse_port(&text).ok(), text.parse::<u16>().ok());
    }
}

#[test]
fn writes_ports() {
    assert_eq!(port_text(0), "0");
    assert_eq!(port_text(7), "7");
    assert_eq!(port_text(10), "10");
    assert_eq!(port_text(8000), "8000");
    assert_eq!(port_text(65535), "65535");
    for n in 0..=u16::MAX {
        assert_eq!(port_text(n), n.to_string());
    }
}

#[test]
fn written_ports_read_back() {
    for n in 0..=u16::MAX {
        assert_eq!(parse_port(&port_text(n)), Ok(n));
    }
}
