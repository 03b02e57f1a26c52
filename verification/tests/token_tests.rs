use sqlio::errors::Error;
use sqlio::token::ConnectionToken;

#[test]
fn renders_eight_lowercase_hex_digits() {
    assert_eq!(ConnectionToken::new(0xdeadbeef).to_hex_string(), "deadbeef");
    assert_eq!(ConnectionToken::new(0).to_hex_string(), "00000000");
    assert_eq!(ConnectionToken::new(0xffffffff).to_hex_string(), "ffffffff");
    assert_eq!(ConnectionToken::new(0x0000abc1).to_hex_string(), "0000abc1");
}

#[test]
fn parses_hex_strings() {
    assert_eq!(ConnectionToken::parse("00ff").unwrap().value(), 255);
    assert_eq!(ConnectionToken::parse("deadbeef").unwrap().value(), 0xdeadbeef);
    assert_eq!(ConnectionToken::parse("DEADBEEF").unwrap().value(), 0xdeadbeef);
    assert_eq!(ConnectionToken::parse("0").unwrap().value(), 0);
    assert_eq!(ConnectionToken::parse("ffffffff").unwrap().value(), 0xffffffff);
}

#[test]
fn rejects_malformed_tokens() {
    assert_eq!(ConnectionToken::parse(""), Err(Error::MalformedToken));
    assert_eq!(ConnectionToken::parse("xyz"), Err(Error::MalformedToken));
    assert_eq!(ConnectionToken::parse("123456789"), Err(Error::MalformedToken));
    assert_eq!(ConnectionToken::parse("12 4"), Err(Error::MalformedToken));
    assert_eq!(ConnectionToken::parse("+ff"), Err(Error::MalformedToken));
}

#[test]
fn token_round_trip() {
    for v in [0u32, 1, 0xff, 0x12345678, 0xdeadbeef, 0xffffffff] {
        let t = ConnectionToken::new(v);
        let parsed = ConnectionToken::parse(&t.to_hex_string()).unwrap();
        assert_eq!(parsed, t);
        assert_eq!(parsed.value(), v);
    }
}
