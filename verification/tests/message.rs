use libcoap::error::{MessageConversionError, OptionValueError};
use libcoap::message::{
    CoapMessage, CoapMessageCommon, CoapOption, CoapPayloadTransfer,
};
use libcoap::protocol::{
    CoapMessageCode, CoapMessageType, CoapRequestCode, CoapResponseCode,
};

fn request() -> CoapMessage {
    CoapMessage::new(
        CoapMessageType::Con,
        CoapMessageCode::Request(CoapRequestCode::Get),
    )
}

#[test]
fn missing_message_id_is_reported_first() {
    let mut m = request();
    m.set_token(Some(vec![1, 2]));
    m.add_option(CoapOption::MaxAge(1));
    assert_eq!(
        m.into_transmit().unwrap_err(),
        MessageConversionError::MissingMessageId
    );
}

#[test]
fn missing_token_is_reported_even_for_zero_length() {
    let mut m = request();
    m.set_mid(Some(1));
    assert_eq!(
        m.into_transmit().unwrap_err(),
        MessageConversionError::MissingToken
    );
    // A zero-length token still fills the slot.
    let mut m = request();
    m.set_mid(Some(1));
    m.set_token(Some(vec![]));
    assert!(m.into_transmit().is_ok());
}

#[test]
fn payload_on_empty_code_is_refused() {
    let mut m = CoapMessage::new(CoapMessageType::Con, CoapMessageCode::Empty);
    m.set_mid(Some(3));
    m.set_token(Some(vec![]));
    m.set_data(Some(vec![1]));
    assert_eq!(
        m.into_transmit().unwrap_err(),
        MessageConversionError::DataInEmptyMessage
    );
}

#[test]
fn request_payload_goes_through_the_large_data_path() {
    let mut m = request();
    m.set_mid(Some(4));
    m.set_token(Some(vec![9]));
    m.set_data(Some(vec![1, 2, 3]));
    let t = m.into_transmit().unwrap();
    assert_eq!(t.payload, CoapPayloadTransfer::LargeRequest(vec![1, 2, 3]));
}

#[test]
fn response_payload_goes_through_the_simple_path() {
    let mut m = CoapMessage::new(
        CoapMessageType::Ack,
        CoapMessageCode::Response(CoapResponseCode::Content),
    );
    m.set_mid(Some(5));
    m.set_token(Some(vec![9]));
    m.set_data(Some(vec![4, 5]));
    let t = m.into_transmit().unwrap();
    assert_eq!(t.payload, CoapPayloadTransfer::SmallResponse(vec![4, 5]));
}

#[test]
fn options_are_encoded_in_insertion_order() {
    let mut m = request();
    m.set_mid(Some(6));
    m.set_token(Some(vec![]));
    m.add_option(CoapOption::MaxAge(60));
    m.add_option(CoapOption::UriPath(String::from("x")));
    m.add_option(CoapOption::Other(65000, vec![9]));
    let t = m.into_transmit().unwrap();
    assert_eq!(
        t.options,
        vec![
            (14u16, vec![60u8]),
            (11u16, vec![b'x']),
            (65000u16, vec![9u8]),
        ]
    );
    assert_eq!(t.mid, 6);
    assert_eq!(t.token, Vec::<u8>::new());
}

#[test]
fn first_bad_option_aborts_conversion() {
    let mut m = request();
    m.set_mid(Some(7));
    m.set_token(Some(vec![]));
    m.add_option(CoapOption::HopLimit(0));
    m.add_option(CoapOption::MaxAge(60));
    assert_eq!(
        m.into_transmit().unwrap_err(),
        MessageConversionError::InvalidOptionValue(None, OptionValueError::TooShort)
    );
}

#[test]
fn from_native_parts_decodes_every_option() {
    let m = CoapMessage::from_native_parts(
        CoapMessageType::Ack,
        CoapMessageCode::Response(CoapResponseCode::Content),
        42,
        vec![0xca, 0xfe],
        vec![(14, vec![60]), (8, vec![b'a'])],
        vec![1, 2],
    )
    .unwrap();
    assert_eq!(m.mid(), Some(42));
    assert_eq!(m.token(), &Some(vec![0xca, 0xfe]));
    assert_eq!(m.data(), &Some(vec![1, 2]));
    assert_eq!(
        m.options(),
        &vec![
            CoapOption::MaxAge(60),
            CoapOption::LocationPath(String::from("a")),
        ]
    );
}

#[test]
fn from_native_parts_aborts_on_first_bad_option() {
    let r = CoapMessage::from_native_parts(
        CoapMessageType::Ack,
        CoapMessageCode::Response(CoapResponseCode::Content),
        42,
        vec![],
        vec![(14, vec![1, 2, 3, 4, 5]), (8, vec![b'a'])],
        vec![],
    );
    assert_eq!(
        r.unwrap_err(),
        MessageConversionError::InvalidOptionValue(None, OptionValueError::TooLong)
    );
}

#[test]
fn envelope_accessors_and_mutators() {
    let mut m = request();
    assert_eq!(m.type_(), CoapMessageType::Con);
    assert_eq!(m.code(), CoapMessageCode::Request(CoapRequestCode::Get));
    assert_eq!(m.mid(), None);
    assert_eq!(m.token(), &None);
    assert_eq!(m.data(), &None);
    m.set_type_(CoapMessageType::Non);
    assert_eq!(m.type_(), CoapMessageType::Non);
    m.set_code(CoapMessageCode::Request(CoapRequestCode::Put));
    assert_eq!(m.code(), CoapMessageCode::Request(CoapRequestCode::Put));
    m.add_option(CoapOption::MaxAge(1));
    m.add_option(CoapOption::Observe(2));
    assert_eq!(m.options().len(), 2);
    m.clear_options();
    assert!(m.options().is_empty());
}
