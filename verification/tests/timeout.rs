use telnet_client::timeout::parse_timeout;

#[test]
fn valid_timeouts_parse_exactly() {
    let cases: Vec<(&str, u64)> = vec![
        ("0s", 0),
        ("5s", 5),
        ("10s", 10),
        ("123s", 123),
        ("007s", 7),
        ("18446744073709551615s", u64::MAX),
    ];
    for (input, expected) in cases {
        let r = parse_timeout(input);
        assert!(r.accepted, "{} should be accepted", input);
        assert_eq!(r.secs, expected, "wrong value for {}", input);
    }
}

#[test]
fn invalid_timeouts_fall_back_to_ten() {
    let cases: Vec<&str> = vec![
        "",
        "s",
        "10",
        "abc",
        "abcs",
        "1a0s",
        "-5s",
        " 10s",
        "10S",
        "10s ",
        "10ss",
        "５s",
    ];
    for input in cases {
        let r = parse_timeout(input);
        assert!(!r.accepted, "{:?} should be rejected", input);
        assert_eq!(r.secs, 10, "rejected {:?} must use the default", input);
    }
}

#[test]
fn overflowing_timeout_falls_back_to_ten() {
    let r = parse_timeout("18446744073709551616s");
    assert!(!r.accepted);
    assert_eq!(r.secs, 10);

    let r = parse_timeout("99999999999999999999999999s");
    assert!(!r.accepted);
    assert_eq!(r.secs, 10);
}

#[test]
fn default_string_is_accepted_as_ten() {
    let r = parse_timeout("10s");
    assert!(r.accepted);
    assert_eq!(r.secs, 10);
}
