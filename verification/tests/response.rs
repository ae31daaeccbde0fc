use libcoap::error::{MessageConversionError, MessageTypeError, OptionValueError};
use libcoap::message::{CoapMessage, CoapMessageCommon, CoapOption};
use libcoap::protocol::{
    CoapMessageCode, CoapMessageType, CoapOptionType, CoapRequestCode, CoapResponseCode,
};
use libcoap::response::{CoapResponse, CoapResponseLocation};
use libcoap::uri::CoapUri;

fn content_message() -> CoapMessage {
    CoapMessage::new(
        CoapMessageType::Ack,
        CoapMessageCode::Response(CoapResponseCode::Content),
    )
}

#[test]
fn reset_type_is_rejected_and_confirmable_accepted() {
    assert_eq!(
        CoapResponse::new(CoapMessageType::Rst, CoapResponseCode::Content).unwrap_err(),
        MessageTypeError::InvalidForMessageCode(CoapMessageType::Rst)
    );
    assert!(CoapResponse::new(CoapMessageType::Con, CoapResponseCode::Content).is_ok());
    assert!(CoapResponse::new(CoapMessageType::Non, CoapResponseCode::Content).is_ok());
    assert!(CoapResponse::new(CoapMessageType::Ack, CoapResponseCode::Content).is_ok());
}

#[test]
fn repeated_max_age_is_rejected() {
    let mut m = content_message();
    m.add_option(CoapOption::MaxAge(1));
    m.add_option(CoapOption::MaxAge(2));
    assert_eq!(
        CoapResponse::from_message(m).unwrap_err(),
        MessageConversionError::NonRepeatableOptionRepeated(CoapOptionType::MaxAge)
    );
}

#[test]
fn uri_path_is_not_valid_on_a_response() {
    let mut m = content_message();
    m.add_option(CoapOption::UriPath(String::from("a")));
    assert_eq!(
        CoapResponse::from_message(m).unwrap_err(),
        MessageConversionError::InvalidOptionForMessageType(CoapOptionType::UriPath)
    );
}

#[test]
fn every_inapplicable_option_is_rejected_with_its_kind() {
    let cases: Vec<(CoapOption, CoapOptionType)> = vec![
        (
            CoapOption::IfMatch(libcoap::protocol::CoapMatch::Empty),
            CoapOptionType::IfMatch,
        ),
        (CoapOption::IfNoneMatch, CoapOptionType::IfNoneMatch),
        (
            CoapOption::UriHost(String::from("h")),
            CoapOptionType::UriHost,
        ),
        (CoapOption::UriPort(1), CoapOptionType::UriPort),
        (
            CoapOption::UriQuery(String::from("q")),
            CoapOptionType::UriQuery,
        ),
        (
            CoapOption::ProxyUri(String::from("u")),
            CoapOptionType::ProxyUri,
        ),
        (
            CoapOption::ProxyScheme(String::from("s")),
            CoapOptionType::ProxyScheme,
        ),
        (CoapOption::Accept(0), CoapOptionType::Accept),
        (CoapOption::Size1(1), CoapOptionType::Size1),
        (CoapOption::Block1(1), CoapOptionType::Block1),
        (CoapOption::HopLimit(1), CoapOptionType::HopLimit),
        (CoapOption::NoResponse(0), CoapOptionType::NoResponse),
    ];
    for (opt, kind) in cases {
        let mut m = content_message();
        m.add_option(opt);
        assert_eq!(
            CoapResponse::from_message(m).unwrap_err(),
            MessageConversionError::InvalidOptionForMessageType(kind)
        );
    }
}

#[test]
fn engine_options_pass_through_uninterpreted() {
    let mut m = content_message();
    m.add_option(CoapOption::Size2(4));
    m.add_option(CoapOption::Block2(1));
    m.add_option(CoapOption::QBlock1(1));
    m.add_option(CoapOption::QBlock2(1));
    m.add_option(CoapOption::RTag(vec![1]));
    m.add_option(CoapOption::OsCore(vec![2]));
    m.add_option(CoapOption::Other(65000, vec![3]));
    let r = CoapResponse::from_message(m).unwrap();
    // The envelope keeps them; the typed fields stay unset.
    assert_eq!(r.options().len(), 7);
    assert_eq!(r.max_age(), None);
    assert_eq!(r.content_format(), None);
    assert_eq!(r.etag(), None);
    assert_eq!(r.echo(), None);
    assert_eq!(r.observe(), None);
    assert!(r.location().is_none());
}

#[test]
fn typed_fields_are_extracted() {
    let mut m = content_message();
    m.add_option(CoapOption::ContentFormat(40));
    m.add_option(CoapOption::MaxAge(60));
    m.add_option(CoapOption::ETag(vec![0xaa]));
    m.add_option(CoapOption::Echo(vec![0x01, 0x02]));
    m.add_option(CoapOption::Observe(9));
    let r = CoapResponse::from_message(m).unwrap();
    assert_eq!(r.content_format(), Some(40));
    assert_eq!(r.max_age(), Some(60));
    assert_eq!(r.etag(), Some(&vec![0xaa]));
    assert_eq!(r.echo(), Some(&vec![0x01, 0x02]));
    assert_eq!(r.observe(), Some(9));
}

#[test]
fn location_round_trips_through_options() {
    let uri = CoapUri::new(
        None,
        None,
        None,
        Some(vec![String::from("a"), String::from("b")]),
        None,
    );
    let loc = CoapResponseLocation::new_response_location(uri).unwrap();
    let options = loc.into_options();
    assert_eq!(
        options,
        vec![
            CoapOption::LocationPath(String::from("a")),
            CoapOption::LocationPath(String::from("b")),
        ]
    );
    let mut m = content_message();
    for o in options {
        m.add_option(o);
    }
    let r = CoapResponse::from_message(m).unwrap();
    let recovered = r.location().expect("location missing").as_uri();
    assert_eq!(
        recovered.path(),
        &Some(vec![String::from("a"), String::from("b")])
    );
    assert_eq!(recovered.query(), &None);
    assert_eq!(recovered.scheme(), &None);
    assert_eq!(recovered.host(), &None);
    assert_eq!(recovered.port(), None);
}

#[test]
fn location_with_scheme_host_or_port_is_illegal() {
    let uri = CoapUri::new(Some(String::from("coap")), None, None, None, None);
    assert_eq!(
        CoapResponseLocation::new_response_location(uri).unwrap_err(),
        OptionValueError::IllegalValue
    );
    let uri = CoapUri::new(None, Some(String::from("h")), None, None, None);
    assert!(CoapResponseLocation::new_response_location(uri).is_err());
    let uri = CoapUri::new(None, None, Some(5683), None, None);
    assert!(CoapResponseLocation::new_response_location(uri).is_err());
}

#[test]
fn into_message_emits_fields_in_fixed_order() {
    let mut r = CoapResponse::new(CoapMessageType::Con, CoapResponseCode::Created).unwrap();
    r.set_max_age(Some(33));
    r.set_content_format(Some(0));
    r.set_etag(Some(vec![0xbe, 0xef]));
    r.set_observe(Some(5));
    r.set_echo(Some(vec![0x0c]));
    let uri = CoapUri::new(
        None,
        None,
        None,
        Some(vec![String::from("p")]),
        Some(vec![String::from("k=v")]),
    );
    r.set_location(Some(uri)).unwrap();
    let m = r.into_message();
    assert_eq!(
        m.options(),
        &vec![
            CoapOption::LocationPath(String::from("p")),
            CoapOption::LocationQuery(String::from("k=v")),
            CoapOption::MaxAge(33),
            CoapOption::ContentFormat(0),
            CoapOption::ETag(vec![0xbe, 0xef]),
            CoapOption::Observe(5),
        ]
    );
}

#[test]
fn unset_fields_emit_nothing() {
    let r = CoapResponse::new(CoapMessageType::Non, CoapResponseCode::Valid).unwrap();
    let m = r.into_message();
    assert!(m.options().is_empty());
    assert_eq!(m.code(), CoapMessageCode::Response(CoapResponseCode::Valid));
    assert_eq!(m.type_(), CoapMessageType::Non);
}

#[test]
fn setters_and_getters_agree() {
    let mut r = CoapResponse::new(CoapMessageType::Con, CoapResponseCode::Content).unwrap();
    r.set_max_age(Some(1));
    assert_eq!(r.max_age(), Some(1));
    r.set_max_age(None);
    assert_eq!(r.max_age(), None);
    r.set_content_format(Some(2));
    assert_eq!(r.content_format(), Some(2));
    r.set_etag(Some(vec![3]));
    assert_eq!(r.etag(), Some(&vec![3]));
    r.set_echo(Some(vec![4]));
    assert_eq!(r.echo(), Some(&vec![4]));
    r.set_observe(Some(5));
    assert_eq!(r.observe(), Some(5));
    assert_eq!(r.set_location(None::<CoapUri>), Ok(()));
    assert!(r.location().is_none());
}

#[test]
fn retagging_admits_only_response_codes() {
    let mut r = CoapResponse::new(CoapMessageType::Con, CoapResponseCode::Content).unwrap();
    assert_eq!(
        r.try_set_code(CoapMessageCode::Response(CoapResponseCode::NotFound)),
        Ok(())
    );
    assert_eq!(
        r.code(),
        CoapMessageCode::Response(CoapResponseCode::NotFound)
    );
    assert_eq!(
        r.try_set_code(CoapMessageCode::Request(CoapRequestCode::Get)),
        Err(MessageTypeError::InvalidCodeForRole)
    );
    assert_eq!(
        r.try_set_code(CoapMessageCode::Empty),
        Err(MessageTypeError::InvalidCodeForRole)
    );
    // The failed attempts changed nothing.
    assert_eq!(
        r.code(),
        CoapMessageCode::Response(CoapResponseCode::NotFound)
    );
}

#[test]
fn repeated_single_valued_options_each_name_their_kind() {
    let cases: Vec<(CoapOption, CoapOptionType)> = vec![
        (CoapOption::ETag(vec![1]), CoapOptionType::ETag),
        (CoapOption::Observe(1), CoapOptionType::Observe),
        (CoapOption::ContentFormat(1), CoapOptionType::ContentFormat),
        (CoapOption::Echo(vec![1]), CoapOptionType::Echo),
    ];
    for (opt, kind) in cases {
        let mut m = content_message();
        m.add_option(opt.clone());
        m.add_option(opt);
        assert_eq!(
            CoapResponse::from_message(m).unwrap_err(),
            MessageConversionError::NonRepeatableOptionRepeated(kind)
        );
    }
}
