use netscope_scan::range::{parse_range, PortRange};

const MESSAGE: &str = "the range format must be 'start-end'. Example: 1-1000.";

#[test]
fn parse_range_reads_start_and_end() {
    assert_eq!(parse_range("1-1000"), Ok(PortRange { start: 1, end: 1000 }));
    assert_eq!(parse_range("80-80"), Ok(PortRange { start: 80, end: 80 }));
    assert_eq!(parse_range("0-65535"), Ok(PortRange { start: 0, end: 65535 }));
}

#[test]
fn parse_range_reads_numbers_as_u16_from_str_does() {
    assert_eq!(parse_range("+1-+2"), Ok(PortRange { start: 1, end: 2 }));
    assert_eq!(parse_range("0001-0020"), Ok(PortRange { start: 1, end: 20 }));
}

#[test]
fn parse_range_does_not_order_the_ends() {
    assert_eq!(parse_range("1000-1"), Ok(PortRange { start: 1000, end: 1 }));
}

#[test]
fn parse_range_refuses_other_shapes() {
    for input in ["", "1", "1-", "-1", "-", "1-2-3", "1--2", "a-b", " 1-2", "1-2 ", "+-1", "1-+"] {
        assert_eq!(parse_range(input), Err(MESSAGE.to_owned()), "input {input:?}");
    }
}

#[test]
fn parse_range_refuses_ports_out_of_range() {
    assert_eq!(parse_range("1-65536"), Err(MESSAGE.to_owned()));
    assert_eq!(parse_range("99999999999-1"), Err(MESSAGE.to_owned()));
}

#[test]
fn parse_range_refuses_non_ascii_digits() {
    assert_eq!(parse_range("١-٢"), Err(MESSAGE.to_owned()));
}
