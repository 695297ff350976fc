use grow_agent::hex::{from_hex, parse_hex_u8, HexError};

#[test]
fn sensor_addresses() {
    assert_eq!(from_hex("0x23"), Ok(35));
    assert_eq!(from_hex("0x5C"), Ok(92));
    assert_eq!(from_hex("0x29"), Ok(41));
    assert_eq!(from_hex("0x77"), Ok(119));
    assert_eq!(from_hex("0x76"), Ok(118));
    assert_eq!(from_hex("5c"), Ok(92));
    assert_eq!(parse_hex_u8("0x29"), Ok(41));
}

#[test]
fn prefixes() {
    assert_eq!(parse_hex_u8("0x0x23"), Ok(35));
    assert_eq!(from_hex("0x0x23"), Err(HexError::InvalidDigit));
    assert_eq!(parse_hex_u8("0x"), Err(HexError::Empty));
    assert_eq!(from_hex("0x"), Err(HexError::Empty));
}

#[test]
fn errors_match_std() {
    for s in ["", "+", "-1", "+ff", "ff", "FF", "100", "1g", "0x100", "+", "g00", "0001", "é"] {
        let std = u8::from_str_radix(s.strip_prefix("0x").unwrap_or(s), 16);
        let ours = from_hex(s);
        match (std, ours) {
            (Ok(a), Ok(b)) => assert_eq!(a, b, "{s}"),
            (Err(e), Err(k)) => {
                let expected = match e.kind() {
                    std::num::IntErrorKind::Empty => HexError::Empty,
                    std::num::IntErrorKind::InvalidDigit => HexError::InvalidDigit,
                    std::num::IntErrorKind::PosOverflow => HexError::PosOverflow,
                    other => panic!("unexpected {other:?}"),
                };
                assert_eq!(k, expected, "{s}");
            }
            (a, b) => panic!("{s}: std {a:?}, ours {b:?}"),
        }
    }
}

#[test]
fn every_byte_round_trips() {
    for b in 0..=255u8 {
        assert_eq!(from_hex(&format!("0x{b:02x}")), Ok(b));
        assert_eq!(parse_hex_u8(&format!("0x{b:02X}")), Ok(b));
    }
}
