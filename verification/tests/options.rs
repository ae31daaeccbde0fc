use libcoap::error::OptionValueError;
use libcoap::message::CoapOption;
use libcoap::protocol::CoapMatch;

#[test]
fn decode_respects_bounds_for_every_recognized_kind() {
    // (number, min_len, max_len) for every entry of the registry.
    let table: Vec<(u16, usize, usize)> = vec![
        (1, 0, 8),
        (3, 1, 255),
        (4, 1, 8),
        (5, 0, 0),
        (6, 0, 3),
        (7, 0, 2),
        (8, 0, 255),
        (9, 0, 255),
        (11, 0, 255),
        (12, 0, 2),
        (14, 0, 4),
        (15, 0, 255),
        (16, 1, 1),
        (17, 0, 2),
        (19, 0, 3),
        (20, 0, 255),
        (23, 0, 3),
        (27, 0, 3),
        (28, 0, 4),
        (31, 0, 3),
        (35, 1, 1034),
        (39, 1, 255),
        (60, 0, 4),
        (252, 1, 40),
        (258, 0, 1),
        (292, 0, 8),
    ];
    for (num, min_len, max_len) in table {
        // An ASCII filler keeps text-valued options decodable.
        let in_bounds = vec![b'a'; min_len];
        assert!(
            CoapOption::decode(num, in_bounds).is_ok(),
            "option {num} rejected a minimal value"
        );
        let in_bounds_max = vec![b'a'; max_len];
        assert!(
            CoapOption::decode(num, in_bounds_max).is_ok(),
            "option {num} rejected a maximal value"
        );
        if min_len > 0 {
            let short = vec![b'a'; min_len - 1];
            assert_eq!(
                CoapOption::decode(num, short),
                Err(OptionValueError::TooShort),
                "option {num} accepted a short value"
            );
        }
        let long = vec![b'a'; max_len + 1];
        assert_eq!(
            CoapOption::decode(num, long),
            Err(OptionValueError::TooLong),
            "option {num} accepted a long value"
        );
    }
}

#[test]
fn unknown_numbers_decode_to_escape_variant() {
    let r = CoapOption::decode(65000, vec![1, 2, 3]).unwrap();
    assert_eq!(r, CoapOption::Other(65000, vec![1, 2, 3]));
    // Even an empty or large value never fails for unknown numbers.
    assert_eq!(
        CoapOption::decode(1234, vec![]).unwrap(),
        CoapOption::Other(1234, vec![])
    );
    assert_eq!(
        CoapOption::decode(2, vec![0; 2000]).unwrap(),
        CoapOption::Other(2, vec![0; 2000])
    );
}

#[test]
fn option_round_trips() {
    let samples = vec![
        CoapOption::IfMatch(CoapMatch::Empty),
        CoapOption::IfMatch(CoapMatch::ETag(vec![1, 2, 3])),
        CoapOption::IfNoneMatch,
        CoapOption::UriHost(String::from("example.org")),
        CoapOption::UriPort(5683),
        CoapOption::UriPath(String::from("sensors")),
        CoapOption::UriQuery(String::from("rt=light")),
        CoapOption::LocationPath(String::from("a")),
        CoapOption::LocationQuery(String::from("b=c")),
        CoapOption::ProxyUri(String::from("coap://proxy")),
        CoapOption::ProxyScheme(String::from("coap")),
        CoapOption::ContentFormat(50),
        CoapOption::Accept(0),
        CoapOption::Size1(1024),
        CoapOption::Size2(0),
        CoapOption::Block1(0x0a0b0c),
        CoapOption::Block2(3),
        CoapOption::QBlock1(7),
        CoapOption::QBlock2(0),
        CoapOption::OsCore(vec![9, 9]),
        CoapOption::HopLimit(16),
        CoapOption::NoResponse(2),
        CoapOption::ETag(vec![0xde, 0xad]),
        CoapOption::MaxAge(60),
        CoapOption::Observe(12),
        CoapOption::Echo(vec![0x01]),
        CoapOption::RTag(vec![]),
        CoapOption::Other(65000, vec![5, 6]),
    ];
    for o in samples {
        let number = o.number();
        let expected = o.clone();
        let bytes = o.into_value_bytes().expect("encoding failed");
        let back = CoapOption::decode(number, bytes).expect("decoding failed");
        assert_eq!(back, expected);
    }
}

#[test]
fn text_option_decodes_utf8() {
    // Would fail if the UTF-8 step handed its input through unchanged.
    let r = CoapOption::decode(3, vec![b'a', b'b']).unwrap();
    assert_eq!(r, CoapOption::UriHost(String::from("ab")));
    let snowman = "\u{2603}";
    let r = CoapOption::decode(11, snowman.as_bytes().to_vec()).unwrap();
    assert_eq!(r, CoapOption::UriPath(String::from(snowman)));
}

#[test]
fn invalid_utf8_is_a_string_conversion_error() {
    assert_eq!(
        CoapOption::decode(3, vec![0xff, 0xfe]),
        Err(OptionValueError::StringConversion)
    );
}

#[test]
fn empty_if_match_decodes_to_empty_match() {
    assert_eq!(
        CoapOption::decode(1, vec![]).unwrap(),
        CoapOption::IfMatch(CoapMatch::Empty)
    );
    assert_eq!(
        CoapOption::decode(1, vec![7]).unwrap(),
        CoapOption::IfMatch(CoapMatch::ETag(vec![7]))
    );
}

#[test]
fn integer_options_decode_big_endian() {
    assert_eq!(
        CoapOption::decode(7, vec![0x16, 0x33]).unwrap(),
        CoapOption::UriPort(5683)
    );
    assert_eq!(CoapOption::decode(14, vec![]).unwrap(), CoapOption::MaxAge(0));
    assert_eq!(
        CoapOption::decode(6, vec![1, 0, 0]).unwrap(),
        CoapOption::Observe(65536)
    );
    assert_eq!(
        CoapOption::decode(258, vec![0x1a]).unwrap(),
        CoapOption::NoResponse(0x1a)
    );
}

#[test]
fn encode_revalidates_bounds() {
    // A hop limit of zero encodes to no bytes, which the registry refuses.
    assert_eq!(
        CoapOption::HopLimit(0).into_value_bytes(),
        Err(OptionValueError::TooShort)
    );
    // An observe counter above three bytes is too long for its option.
    assert_eq!(
        CoapOption::Observe(0x0100_0000).into_value_bytes(),
        Err(OptionValueError::TooLong)
    );
    // An overlong entity tag is refused on the encode path too.
    assert_eq!(
        CoapOption::ETag(vec![0; 9]).into_value_bytes(),
        Err(OptionValueError::TooLong)
    );
}

#[test]
fn number_reports_the_registry_number() {
    assert_eq!(CoapOption::MaxAge(1).number(), 14);
    assert_eq!(CoapOption::Observe(1).number(), 6);
    assert_eq!(CoapOption::Echo(vec![1]).number(), 252);
    assert_eq!(CoapOption::NoResponse(0).number(), 258);
    assert_eq!(CoapOption::RTag(vec![]).number(), 292);
    assert_eq!(CoapOption::Other(4711, vec![]).number(), 4711);
}

#[test]
fn decode_then_encode_reproduces_bytes() {
    let o = CoapOption::decode(7, vec![0x16, 0x33]).unwrap();
    assert_eq!(o.into_value_bytes().unwrap(), vec![0x16, 0x33]);
    let o = CoapOption::decode(3, vec![b'h', b'i']).unwrap();
    assert_eq!(o.into_value_bytes().unwrap(), vec![b'h', b'i']);
    let o = CoapOption::decode(4, vec![0xaa, 0xbb]).unwrap();
    assert_eq!(o.into_value_bytes().unwrap(), vec![0xaa, 0xbb]);
}
