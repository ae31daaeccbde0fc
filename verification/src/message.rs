//! The option model and the message envelope.
//!
//! An option is a closed, tagged union of every recognized option plus an
//! escape variant for unrecognized numbers. Decoding and encoding both
//! validate the value's byte length against the registry bounds, so the two
//! paths cannot diverge.

use vstd::prelude::*;
use vstd::utf8::{decode_utf8, encode_utf8, valid_utf8};

use crate::codec::{
    be_val, decode_var_len_u16, decode_var_len_u32, encode_var_len_u16, encode_var_len_u32,
    encode_var_len_u8, lemma_be_val_bound, lemma_be_val_min_be, min_be, pow256,
};
use crate::error::{MessageConversionError, OptionValueError};
use crate::protocol::{
    Block, CoapMatch, CoapMessageCode, CoapMessageId, CoapMessageType, CoapOptionNum,
    CoapOptionType, ContentFormat, ETag, Echo, HopLimit, MaxAge, NoResponse, Observe, ProxyScheme,
    ProxyUri, Size, UriHost, UriPath, UriPort, UriQuery,
};

verus! {

/// A single option of a message: one variant per recognized option, and an
/// escape variant carrying the raw number and bytes of any other option.
#[derive(Clone, Debug, PartialEq, Eq)]
pub enum CoapOption {
    IfMatch(CoapMatch),
    IfNoneMatch,
    UriHost(UriHost),
    UriPort(UriPort),
    UriPath(UriPath),
    UriQuery(UriQuery),
    LocationPath(UriPath),
    LocationQuery(UriQuery),
    ProxyUri(ProxyUri),
    ProxyScheme(ProxyScheme),
    ContentFormat(ContentFormat),
    Accept(ContentFormat),
    Size1(Size),
    Size2(Size),
    Block1(Block),
    Block2(Block),
    QBlock1(Block),
    QBlock2(Block),
    OsCore(Vec<u8>),
    HopLimit(HopLimit),
    NoResponse(NoResponse),
    ETag(ETag),
    MaxAge(MaxAge),
    Observe(Observe),
    Echo(Echo),
    RTag(Vec<u8>),
    Other(CoapOptionNum, Vec<u8>),
}

/// Mathematical value of an If-Match option.
#[verifier::ext_equal]
pub enum MatchV {
    Empty,
    ETag(Seq<u8>),
}

/// Mathematical value of an option.
#[verifier::ext_equal]
pub enum OptV {
    IfMatch(MatchV),
    IfNoneMatch,
    UriHost(Seq<char>),
    UriPort(u16),
    UriPath(Seq<char>),
    UriQuery(Seq<char>),
    LocationPath(Seq<char>),
    LocationQuery(Seq<char>),
    ProxyUri(Seq<char>),
    ProxyScheme(Seq<char>),
    ContentFormat(u16),
    Accept(u16),
    Size1(u32),
    Size2(u32),
    Block1(u32),
    Block2(u32),
    QBlock1(u32),
    QBlock2(u32),
    OsCore(Seq<u8>),
    HopLimit(u16),
    NoResponse(u8),
    ETag(Seq<u8>),
    MaxAge(u32),
    Observe(u32),
    Echo(Seq<u8>),
    RTag(Seq<u8>),
    Other(u16, Seq<u8>),
}

impl View for CoapMatch {
    type V = MatchV;

    open spec fn view(&self) -> MatchV {
        match self {
            CoapMatch::Empty => MatchV::Empty,
            CoapMatch::ETag(t) => MatchV::ETag(t@),
        }
    }
}

impl View for CoapOption {
    type V = OptV;

    open spec fn view(&self) -> OptV {
        match self {
            CoapOption::IfMatch(m) => OptV::IfMatch(m@),
            CoapOption::IfNoneMatch => OptV::IfNoneMatch,
            CoapOption::UriHost(s) => OptV::UriHost(s@),
            CoapOption::UriPort(v) => OptV::UriPort(*v),
            CoapOption::UriPath(s) => OptV::UriPath(s@),
            CoapOption::UriQuery(s) => OptV::UriQuery(s@),
            CoapOption::LocationPath(s) => OptV::LocationPath(s@),
            CoapOption::LocationQuery(s) => OptV::LocationQuery(s@),
            CoapOption::ProxyUri(s) => OptV::ProxyUri(s@),
            CoapOption::ProxyScheme(s) => OptV::ProxyScheme(s@),
            CoapOption::ContentFormat(v) => OptV::ContentFormat(*v),
            CoapOption::Accept(v) => OptV::Accept(*v),
            CoapOption::Size1(v) => OptV::Size1(*v),
            CoapOption::Size2(v) => OptV::Size2(*v),
            CoapOption::Block1(v) => OptV::Block1(*v),
            CoapOption::Block2(v) => OptV::Block2(*v),
            CoapOption::QBlock1(v) => OptV::QBlock1(*v),
            CoapOption::QBlock2(v) => OptV::QBlock2(*v),
            CoapOption::OsCore(b) => OptV::OsCore(b@),
            CoapOption::HopLimit(v) => OptV::HopLimit(*v),
            CoapOption::NoResponse(v) => OptV::NoResponse(*v),
            CoapOption::ETag(b) => OptV::ETag(b@),
            CoapOption::MaxAge(v) => OptV::MaxAge(*v),
            CoapOption::Observe(v) => OptV::Observe(*v),
            CoapOption::Echo(b) => OptV::Echo(b@),
            CoapOption::RTag(b) => OptV::RTag(b@),
            CoapOption::Other(n, b) => OptV::Other(*n, b@),
        }
    }
}

impl OptV {
    /// The option number of this option.
    pub open spec fn num(self) -> u16 {
        match self {
            OptV::IfMatch(_) => 1,
            OptV::UriHost(_) => 3,
            OptV::ETag(_) => 4,
            OptV::IfNoneMatch => 5,
            OptV::Observe(_) => 6,
            OptV::UriPort(_) => 7,
            OptV::LocationPath(_) => 8,
            OptV::OsCore(_) => 9,
            OptV::UriPath(_) => 11,
            OptV::ContentFormat(_) => 12,
            OptV::MaxAge(_) => 14,
            OptV::UriQuery(_) => 15,
            OptV::HopLimit(_) => 16,
            OptV::Accept(_) => 17,
            OptV::QBlock1(_) => 19,
            OptV::LocationQuery(_) => 20,
            OptV::Block2(_) => 23,
            OptV::Block1(_) => 27,
            OptV::Size2(_) => 28,
            OptV::QBlock2(_) => 31,
            OptV::ProxyUri(_) => 35,
            OptV::ProxyScheme(_) => 39,
            OptV::Size1(_) => 60,
            OptV::Echo(_) => 252,
            OptV::NoResponse(_) => 258,
            OptV::RTag(_) => 292,
            OptV::Other(n, _) => n,
        }
    }
}

/// Interpretation of an in-bounds value for a recognized option kind.
pub open spec fn spec_decode_typed(t: CoapOptionType, bytes: Seq<u8>) -> Result<
    OptV,
    OptionValueError,
> {
    match t {
        CoapOptionType::IfMatch => Ok(
            OptV::IfMatch(
                if bytes.len() == 0 {
                    MatchV::Empty
                } else {
                    MatchV::ETag(bytes)
                },
            ),
        ),
        CoapOptionType::UriHost => if valid_utf8(bytes) {
            Ok(OptV::UriHost(decode_utf8(bytes)))
        } else {
            Err(OptionValueError::StringConversion)
        },
        CoapOptionType::ETag => Ok(OptV::ETag(bytes)),
        CoapOptionType::IfNoneMatch => Ok(OptV::IfNoneMatch),
        CoapOptionType::Observe => Ok(OptV::Observe(be_val(bytes) as u32)),
        CoapOptionType::UriPort => Ok(OptV::UriPort(be_val(bytes) as u16)),
        CoapOptionType::LocationPath => if valid_utf8(bytes) {
            Ok(OptV::LocationPath(decode_utf8(bytes)))
        } else {
            Err(OptionValueError::StringConversion)
        },
        CoapOptionType::OsCore => Ok(OptV::OsCore(bytes)),
        CoapOptionType::UriPath => if valid_utf8(bytes) {
            Ok(OptV::UriPath(decode_utf8(bytes)))
        } else {
            Err(OptionValueError::StringConversion)
        },
        CoapOptionType::ContentFormat => Ok(OptV::ContentFormat(be_val(bytes) as u16)),
        CoapOptionType::MaxAge => Ok(OptV::MaxAge(be_val(bytes) as u32)),
        CoapOptionType::UriQuery => if valid_utf8(bytes) {
            Ok(OptV::UriQuery(decode_utf8(bytes)))
        } else {
            Err(OptionValueError::StringConversion)
        },
        CoapOptionType::HopLimit => Ok(OptV::HopLimit(be_val(bytes) as u16)),
        CoapOptionType::Accept => Ok(OptV::Accept(be_val(bytes) as u16)),
        CoapOptionType::QBlock1 => Ok(OptV::QBlock1(be_val(bytes) as u32)),
        CoapOptionType::LocationQuery => if valid_utf8(bytes) {
            Ok(OptV::LocationQuery(decode_utf8(bytes)))
        } else {
            Err(OptionValueError::StringConversion)
        },
        CoapOptionType::Block2 => Ok(OptV::Block2(be_val(bytes) as u32)),
        CoapOptionType::Block1 => Ok(OptV::Block1(be_val(bytes) as u32)),
        CoapOptionType::Size2 => Ok(OptV::Size2(be_val(bytes) as u32)),
        CoapOptionType::QBlock2 => Ok(OptV::QBlock2(be_val(bytes) as u32)),
        CoapOptionType::ProxyUri => if valid_utf8(bytes) {
            Ok(OptV::ProxyUri(decode_utf8(bytes)))
        } else {
            Err(OptionValueError::StringConversion)
        },
        CoapOptionType::ProxyScheme => if valid_utf8(bytes) {
            Ok(OptV::ProxyScheme(decode_utf8(bytes)))
        } else {
            Err(OptionValueError::StringConversion)
        },
        CoapOptionType::Size1 => Ok(OptV::Size1(be_val(bytes) as u32)),
        CoapOptionType::Echo => Ok(OptV::Echo(bytes)),
        CoapOptionType::NoResponse => Ok(OptV::NoResponse(be_val(bytes) as u8)),
        CoapOptionType::RTag => Ok(OptV::RTag(bytes)),
    }
}

/// What decoding a (number, value) pair yields: the escape variant for an
/// unrecognized number, a bounds error outside the registry's length range,
/// and the typed interpretation otherwise.
pub open spec fn spec_decode(number: u16, bytes: Seq<u8>) -> Result<OptV, OptionValueError> {
    match CoapOptionType::spec_of_number(number) {
        None => Ok(OptV::Other(number, bytes)),
        Some(t) => if bytes.len() < t.spec_min_len() {
            Err(OptionValueError::TooShort)
        } else if bytes.len() > t.spec_max_len() {
            Err(OptionValueError::TooLong)
        } else {
            spec_decode_typed(t, bytes)
        },
    }
}

/// The byte representation of an option's value.
pub open spec fn spec_value_bytes(o: OptV) -> Seq<u8> {
    match o {
        OptV::IfMatch(MatchV::Empty) => Seq::empty(),
        OptV::IfMatch(MatchV::ETag(t)) => t,
        OptV::IfNoneMatch => Seq::empty(),
        OptV::UriHost(s) => encode_utf8(s),
        OptV::UriPort(v) => min_be(v as nat),
        OptV::UriPath(s) => encode_utf8(s),
        OptV::UriQuery(s) => encode_utf8(s),
        OptV::LocationPath(s) => encode_utf8(s),
        OptV::LocationQuery(s) => encode_utf8(s),
        OptV::ProxyUri(s) => encode_utf8(s),
        OptV::ProxyScheme(s) => encode_utf8(s),
        OptV::ContentFormat(v) => min_be(v as nat),
        OptV::Accept(v) => min_be(v as nat),
        OptV::Size1(v) => min_be(v as nat),
        OptV::Size2(v) => min_be(v as nat),
        OptV::Block1(v) => min_be(v as nat),
        OptV::Block2(v) => min_be(v as nat),
        OptV::QBlock1(v) => min_be(v as nat),
        OptV::QBlock2(v) => min_be(v as nat),
        OptV::OsCore(b) => b,
        OptV::HopLimit(v) => min_be(v as nat),
        OptV::NoResponse(v) => min_be(v as nat),
        OptV::ETag(b) => b,
        OptV::MaxAge(v) => min_be(v as nat),
        OptV::Observe(v) => min_be(v as nat),
        OptV::Echo(b) => b,
        OptV::RTag(b) => b,
        OptV::Other(_, b) => b,
    }
}

/// What encoding an option yields: its value bytes, re-validated against the
/// same registry bounds that decoding uses.
pub open spec fn spec_encode(o: OptV) -> Result<Seq<u8>, OptionValueError> {
    let b = spec_value_bytes(o);
    match CoapOptionType::spec_of_number(o.num()) {
        None => Ok(b),
        Some(t) => if b.len() < t.spec_min_len() {
            Err(OptionValueError::TooShort)
        } else if b.len() > t.spec_max_len() {
            Err(OptionValueError::TooLong)
        } else {
            Ok(b)
        },
    }
}

/// A decode result, seen at the mathematical level.
pub open spec fn decode_res_view(r: Result<CoapOption, OptionValueError>) -> Result<
    OptV,
    OptionValueError,
> {
    match r {
        Ok(o) => Ok(o@),
        Err(e) => Err(e),
    }
}

/// An encode result, seen at the mathematical level.
pub open spec fn encode_res_view(r: Result<Vec<u8>, OptionValueError>) -> Result<
    Seq<u8>,
    OptionValueError,
> {
    match r {
        Ok(b) => Ok(b@),
        Err(e) => Err(e),
    }
}

/// Relies on String::from_utf8: it succeeds exactly on valid UTF-8 and wraps
/// the given bytes, so the result's characters are their decoding.
#[verifier::external_body]
fn string_from_bytes(bytes: Vec<u8>) -> (r: Result<String, OptionValueError>)
    ensures
        (match r {
            Ok(s) => valid_utf8(bytes@) && s@ == decode_utf8(bytes@),
            Err(e) => !valid_utf8(bytes@) && e == OptionValueError::StringConversion,
        }),
{
    match String::from_utf8(bytes) {
        Ok(s) => Ok(s),
        Err(_) => Err(OptionValueError::StringConversion),
    }
}

/// The bytes of a string, which are always a valid UTF-8 encoding.
fn string_into_bytes(s: String) -> (r: Vec<u8>)
    ensures
        r@ == encode_utf8(s@),
{
    vstd::slice::slice_to_vec(s.as_str().as_bytes())
}

impl CoapOption {
    /// Decodes a raw (number, value) pair into an option.
    ///
    /// A recognized number whose value length falls outside the registry
    /// bounds is rejected; an unrecognized number is carried verbatim in the
    /// escape variant and never fails.
    pub fn decode(number: CoapOptionNum, value: Vec<u8>) -> (r: Result<
        CoapOption,
        OptionValueError,
    >)
        ensures
            decode_res_view(r) == spec_decode(number, value@),
    {
        let t_opt = CoapOptionType::from_number(number);
        match t_opt {
            None => Ok(CoapOption::Other(number, value)),
            Some(t) => {
                if value.len() < t.min_len() {
                    return Err(OptionValueError::TooShort);
                }
                if value.len() > t.max_len() {
                    return Err(OptionValueError::TooLong);
                }
                proof {
                    lemma_be_val_bound(value@);
                    reveal_with_fuel(pow256, 6);
                }
                match t {
                    CoapOptionType::IfMatch => Ok(
                        CoapOption::IfMatch(
                            if value.len() == 0 {
                                CoapMatch::Empty
                            } else {
                                CoapMatch::ETag(value)
                            },
                        ),
                    ),
                    CoapOptionType::UriHost => match string_from_bytes(value) {
                        Ok(s) => Ok(CoapOption::UriHost(s)),
                        Err(e) => Err(e),
                    },
                    CoapOptionType::ETag => Ok(CoapOption::ETag(value)),
                    CoapOptionType::IfNoneMatch => Ok(CoapOption::IfNoneMatch),
                    CoapOptionType::Observe => Ok(
                        CoapOption::Observe(decode_var_len_u32(&value)),
                    ),
                    CoapOptionType::UriPort => Ok(CoapOption::UriPort(decode_var_len_u16(&value))),
                    CoapOptionType::LocationPath => match string_from_bytes(value) {
                        Ok(s) => Ok(CoapOption::LocationPath(s)),
                        Err(e) => Err(e),
                    },
                    CoapOptionType::OsCore => Ok(CoapOption::OsCore(value)),
                    CoapOptionType::UriPath => match string_from_bytes(value) {
                        Ok(s) => Ok(CoapOption::UriPath(s)),
                        Err(e) => Err(e),
                    },
                    CoapOptionType::ContentFormat => Ok(
                        CoapOption::ContentFormat(decode_var_len_u16(&value)),
                    ),
                    CoapOptionType::MaxAge => Ok(CoapOption::MaxAge(decode_var_len_u32(&value))),
                    CoapOptionType::UriQuery => match string_from_bytes(value) {
                        Ok(s) => Ok(CoapOption::UriQuery(s)),
                        Err(e) => Err(e),
                    },
                    CoapOptionType::HopLimit => Ok(
                        CoapOption::HopLimit(decode_var_len_u16(&value)),
                    ),
                    CoapOptionType::Accept => Ok(CoapOption::Accept(decode_var_len_u16(&value))),
                    CoapOptionType::QBlock1 => Ok(
                        CoapOption::QBlock1(decode_var_len_u32(&value)),
                    ),
                    CoapOptionType::LocationQuery => match string_from_bytes(value) {
                        Ok(s) => Ok(CoapOption::LocationQuery(s)),
                        Err(e) => Err(e),
                    },
                    CoapOptionType::Block2 => Ok(CoapOption::Block2(decode_var_len_u32(&value))),
                    CoapOptionType::Block1 => Ok(CoapOption::Block1(decode_var_len_u32(&value))),
                    CoapOptionType::Size2 => Ok(CoapOption::Size2(decode_var_len_u32(&value))),
                    CoapOptionType::QBlock2 => Ok(
                        CoapOption::QBlock2(decode_var_len_u32(&value)),
                    ),
                    CoapOptionType::ProxyUri => match string_from_bytes(value) {
                        Ok(s) => Ok(CoapOption::ProxyUri(s)),
                        Err(e) => Err(e),
                    },
                    CoapOptionType::ProxyScheme => match string_from_bytes(value) {
                        Ok(s) => Ok(CoapOption::ProxyScheme(s)),
                        Err(e) => Err(e),
                    },
                    CoapOptionType::Size1 => Ok(CoapOption::Size1(decode_var_len_u32(&value))),
                    CoapOptionType::Echo => Ok(CoapOption::Echo(value)),
                    CoapOptionType::NoResponse => Ok(
                        CoapOption::NoResponse(decode_var_len_u32(&value) as u8),
                    ),
                    CoapOptionType::RTag => Ok(CoapOption::RTag(value)),
                }
            },
        }
    }

    /// The option number this option is sent under.
    pub fn number(&self) -> (r: CoapOptionNum)
        ensures
            r == self@.num(),
    {
        match self {
            CoapOption::IfMatch(_) => 1,
            CoapOption::UriHost(_) => 3,
            CoapOption::ETag(_) => 4,
            CoapOption::IfNoneMatch => 5,
            CoapOption::Observe(_) => 6,
            CoapOption::UriPort(_) => 7,
            CoapOption::LocationPath(_) => 8,
            CoapOption::OsCore(_) => 9,
            CoapOption::UriPath(_) => 11,
            CoapOption::ContentFormat(_) => 12,
            CoapOption::MaxAge(_) => 14,
            CoapOption::UriQuery(_) => 15,
            CoapOption::HopLimit(_) => 16,
            CoapOption::Accept(_) => 17,
            CoapOption::QBlock1(_) => 19,
            CoapOption::LocationQuery(_) => 20,
            CoapOption::Block2(_) => 23,
            CoapOption::Block1(_) => 27,
            CoapOption::Size2(_) => 28,
            CoapOption::QBlock2(_) => 31,
            CoapOption::ProxyUri(_) => 35,
            CoapOption::ProxyScheme(_) => 39,
            CoapOption::Size1(_) => 60,
            CoapOption::Echo(_) => 252,
            CoapOption::NoResponse(_) => 258,
            CoapOption::RTag(_) => 292,
            CoapOption::Other(n, _) => *n,
        }
    }

    /// Encodes this option into its value bytes, re-validating the byte
    /// length against the registry bounds.
    pub fn into_value_bytes(self) -> (r: Result<Vec<u8>, OptionValueError>)
        ensures
            encode_res_view(r) == spec_encode(self@),
    {
        let num = self.number();
        let bytes: Vec<u8> = match self {
            CoapOption::IfMatch(val) => match val {
                CoapMatch::ETag(tag) => tag,
                CoapMatch::Empty => Vec::new(),
            },
            CoapOption::IfNoneMatch => Vec::new(),
            CoapOption::UriHost(value) => string_into_bytes(value),
            CoapOption::UriPort(value) => encode_var_len_u16(value),
            CoapOption::UriPath(value) => string_into_bytes(value),
            CoapOption::UriQuery(value) => string_into_bytes(value),
            CoapOption::LocationPath(value) => string_into_bytes(value),
            CoapOption::LocationQuery(value) => string_into_bytes(value),
            CoapOption::ProxyUri(value) => string_into_bytes(value),
            CoapOption::ProxyScheme(value) => string_into_bytes(value),
            CoapOption::ContentFormat(value) => encode_var_len_u16(value),
            CoapOption::Accept(value) => encode_var_len_u16(value),
            CoapOption::Size1(value) => encode_var_len_u32(value),
            CoapOption::Size2(value) => encode_var_len_u32(value),
            CoapOption::Block1(value) => encode_var_len_u32(value),
            CoapOption::Block2(value) => encode_var_len_u32(value),
            CoapOption::QBlock1(value) => encode_var_len_u32(value),
            CoapOption::QBlock2(value) => encode_var_len_u32(value),
            CoapOption::OsCore(data) => data,
            CoapOption::HopLimit(value) => encode_var_len_u16(value),
            CoapOption::NoResponse(value) => encode_var_len_u8(value),
            CoapOption::ETag(value) => value,
            CoapOption::MaxAge(value) => encode_var_len_u32(value),
            CoapOption::Observe(value) => encode_var_len_u32(value),
            CoapOption::Echo(value) => value,
            CoapOption::RTag(value) => value,
            CoapOption::Other(_, data) => data,
        };
        match CoapOptionType::from_number(num) {
            Some(t) => {
                if bytes.len() < t.min_len() {
                    Err(OptionValueError::TooShort)
                } else if bytes.len() > t.max_len() {
                    Err(OptionValueError::TooLong)
                } else {
                    Ok(bytes)
                }
            },
            None => Ok(bytes),
        }
    }
}

/// Whether a registry entry carries an unsigned integer.
pub open spec fn is_uint_kind(t: CoapOptionType) -> bool {
    match t {
        CoapOptionType::Observe => true,
        CoapOptionType::UriPort => true,
        CoapOptionType::ContentFormat => true,
        CoapOptionType::MaxAge => true,
        CoapOptionType::HopLimit => true,
        CoapOptionType::Accept => true,
        CoapOptionType::QBlock1 => true,
        CoapOptionType::Block2 => true,
        CoapOptionType::Block1 => true,
        CoapOptionType::Size2 => true,
        CoapOptionType::QBlock2 => true,
        CoapOptionType::Size1 => true,
        CoapOptionType::NoResponse => true,
        _ => false,
    }
}

/// Encoding inverts decoding: a recognized option value within its bounds
/// that decodes (valid UTF-8 for a text kind) is reproduced by encoding the
/// decoded option, provided an integer kind carries no leading zero byte
/// (the minimal-length encoding drops such bytes).
pub proof fn lemma_encode_of_decode(t: CoapOptionType, bytes: Seq<u8>)
    requires
        t.spec_min_len() <= bytes.len() <= t.spec_max_len(),
        is_text_kind(t) ==> valid_utf8(bytes),
        is_uint_kind(t) ==> bytes.len() == 0 || bytes[0] != 0,
    ensures
        spec_decode(t.spec_number(), bytes) matches Ok(o) && spec_encode(o) == Ok::<
            Seq<u8>,
            OptionValueError,
        >(bytes),
{
    broadcast use vstd::utf8::decode_utf8_encode_utf8;

    crate::protocol::lemma_registry_number_lookup(t);
    if is_uint_kind(t) {
        crate::codec::lemma_be_val_bound(bytes);
        proof_uint_reveal();
        if bytes.len() <= 1 {
            crate::codec::lemma_pow256_monotone(bytes.len() as nat, 1);
        }
        if bytes.len() <= 2 {
            crate::codec::lemma_pow256_monotone(bytes.len() as nat, 2);
        }
        if bytes.len() <= 3 {
            crate::codec::lemma_pow256_monotone(bytes.len() as nat, 3);
        }
        if bytes.len() <= 4 {
            crate::codec::lemma_pow256_monotone(bytes.len() as nat, 4);
        }
        crate::codec::lemma_min_be_of_be_val(bytes);
    }
    let r = spec_decode(t.spec_number(), bytes);
    assert(r is Ok);
    assert(spec_value_bytes(r->Ok_0) =~= bytes);
}

/// Concrete values of the small powers the bounds arguments compare against.
proof fn proof_uint_reveal()
    ensures
        pow256(0) == 1,
        pow256(1) == 256,
        pow256(2) == 65536,
        pow256(3) == 16777216,
        pow256(4) == 4294967296,
{
    reveal_with_fuel(pow256, 6);
}

/// Whether a registry entry carries UTF-8 text.
pub open spec fn is_text_kind(t: CoapOptionType) -> bool {
    match t {
        CoapOptionType::UriHost => true,
        CoapOptionType::UriPath => true,
        CoapOptionType::UriQuery => true,
        CoapOptionType::LocationPath => true,
        CoapOptionType::LocationQuery => true,
        CoapOptionType::ProxyUri => true,
        CoapOptionType::ProxyScheme => true,
        _ => false,
    }
}

/// Decoding a recognized option fails exactly as the registry bounds say:
/// a too-short value with the short error, a too-long one with the long
/// error, and within bounds it succeeds whenever a text-valued option
/// carries valid UTF-8 (other kinds succeed on every in-bounds value).
pub proof fn lemma_decode_bounds(t: CoapOptionType, bytes: Seq<u8>)
    ensures
        bytes.len() < t.spec_min_len() ==> spec_decode(t.spec_number(), bytes) == Err::<
            OptV,
            OptionValueError,
        >(OptionValueError::TooShort),
        bytes.len() > t.spec_max_len() ==> spec_decode(t.spec_number(), bytes) == Err::<
            OptV,
            OptionValueError,
        >(OptionValueError::TooLong),
        t.spec_min_len() <= bytes.len() <= t.spec_max_len() && (is_text_kind(t) ==> valid_utf8(
            bytes,
        )) ==> spec_decode(t.spec_number(), bytes) is Ok,
{
    crate::protocol::lemma_registry_number_lookup(t);
}

/// Unknown option numbers always decode to the escape variant, carrying the
/// raw bytes verbatim; an unrecognized number alone is never a failure.
pub proof fn lemma_unknown_number_decodes(number: u16, bytes: Seq<u8>)
    requires
        CoapOptionType::spec_of_number(number) is None,
    ensures
        spec_decode(number, bytes) == Ok::<OptV, OptionValueError>(OptV::Other(number, bytes)),
{
}

/// Whether an option can be built directly with a value that satisfies its
/// registry bounds: its value bytes fall inside the bounds, the escape
/// variant is reserved for unrecognized numbers, and a specific If-Match tag
/// is nonempty (the empty tag is the empty-match variant instead).
pub open spec fn constructible(o: OptV) -> bool {
    match CoapOptionType::spec_of_number(o.num()) {
        None => o matches OptV::Other(_, _),
        Some(t) => !(o matches OptV::Other(_, _)) && t.spec_min_len() <= spec_value_bytes(o).len()
            <= t.spec_max_len() && (o matches OptV::IfMatch(MatchV::ETag(tag)) ==> tag.len() > 0),
    }
}

/// Round-trip: every option constructible with a value satisfying its bounds
/// encodes successfully, and decoding that encoding under the option's own
/// number recovers the option.
pub proof fn lemma_option_round_trip(o: OptV)
    requires
        constructible(o),
    ensures
        spec_encode(o) == Ok::<Seq<u8>, OptionValueError>(spec_value_bytes(o)),
        spec_decode(o.num(), spec_value_bytes(o)) == Ok::<OptV, OptionValueError>(o),
{
    broadcast use vstd::utf8::encode_utf8_valid_utf8, vstd::utf8::encode_utf8_decode_utf8;

    match o {
        OptV::UriPort(v) => {
            lemma_be_val_min_be(v as nat);
        },
        OptV::ContentFormat(v) => {
            lemma_be_val_min_be(v as nat);
        },
        OptV::Accept(v) => {
            lemma_be_val_min_be(v as nat);
        },
        OptV::HopLimit(v) => {
            lemma_be_val_min_be(v as nat);
        },
        OptV::Size1(v) => {
            lemma_be_val_min_be(v as nat);
        },
        OptV::Size2(v) => {
            lemma_be_val_min_be(v as nat);
        },
        OptV::Block1(v) => {
            lemma_be_val_min_be(v as nat);
        },
        OptV::Block2(v) => {
            lemma_be_val_min_be(v as nat);
        },
        OptV::QBlock1(v) => {
            lemma_be_val_min_be(v as nat);
        },
        OptV::QBlock2(v) => {
            lemma_be_val_min_be(v as nat);
        },
        OptV::MaxAge(v) => {
            lemma_be_val_min_be(v as nat);
        },
        OptV::Observe(v) => {
            lemma_be_val_min_be(v as nat);
        },
        OptV::NoResponse(v) => {
            lemma_be_val_min_be(v as nat);
        },
        _ => {},
    }
}

/// Mathematical value of a message envelope.
#[verifier::ext_equal]
pub struct MessageView {
    pub type_: CoapMessageType,
    pub code: CoapMessageCode,
    pub mid: Option<CoapMessageId>,
    pub options: Seq<OptV>,
    pub token: Option<Seq<u8>>,
    pub data: Option<Seq<u8>>,
}

/// The mathematical value of an optional byte buffer.
pub open spec fn bytes_opt_view(b: Option<Vec<u8>>) -> Option<Seq<u8>> {
    match b {
        Some(v) => Some(v@),
        None => None,
    }
}

/// The mathematical value of an option list.
pub open spec fn opts_view(s: Seq<CoapOption>) -> Seq<OptV> {
    s.map_values(|o: CoapOption| o@)
}

/// A message envelope: type, code, optional message id, ordered option
/// list, optional token and optional payload. Options keep insertion order;
/// sorting by option number is the engine's business during serialization.
#[derive(Clone, Debug, PartialEq, Eq)]
pub struct CoapMessage {
    type_: CoapMessageType,
    code: CoapMessageCode,
    mid: Option<CoapMessageId>,
    options: Vec<CoapOption>,
    token: Option<Vec<u8>>,
    data: Option<Vec<u8>>,
}

impl View for CoapMessage {
    type V = MessageView;

    closed spec fn view(&self) -> MessageView {
        MessageView {
            type_: self.type_,
            code: self.code,
            mid: self.mid,
            options: opts_view(self.options@),
            token: bytes_opt_view(self.token),
            data: bytes_opt_view(self.data),
        }
    }
}

/// Access shared by every kind of message object: each such object is, or
/// owns, a message envelope, and these operations read and mutate it.
pub trait CoapMessageCommon: Sized {
    /// The envelope this object carries, as a mathematical value.
    spec fn msg(&self) -> MessageView;

    /// Which codes this object's role admits.
    spec fn allows_code(&self, code: CoapMessageCode) -> bool;

    /// Appends an option; insertion order is preserved.
    fn add_option(&mut self, option: CoapOption)
        ensures
            final(self).msg() == (MessageView {
                options: old(self).msg().options.push(option@),
                ..old(self).msg()
            }),
    ;

    /// Removes every queued option.
    fn clear_options(&mut self)
        ensures
            final(self).msg() == (MessageView {
                options: Seq::empty(),
                ..old(self).msg()
            }),
    ;

    /// The queued options, in insertion order.
    fn options(&self) -> (r: &Vec<CoapOption>)
        ensures
            opts_view(r@) == self.msg().options,
    ;

    /// The transmission type.
    fn type_(&self) -> (r: CoapMessageType)
        ensures
            r == self.msg().type_,
    ;

    /// Replaces the transmission type.
    fn set_type_(&mut self, type_: CoapMessageType)
        ensures
            final(self).msg() == (MessageView { type_: type_, ..old(self).msg() }),
    ;

    /// The message code.
    fn code(&self) -> (r: CoapMessageCode)
        ensures
            r == self.msg().code,
    ;

    /// Replaces the message code; the caller must pick one that this
    /// object's role admits.
    fn set_code(&mut self, code: CoapMessageCode)
        requires
            old(self).allows_code(code),
        ensures
            final(self).msg() == (MessageView { code: code, ..old(self).msg() }),
    ;

    /// The message id, if one was assigned.
    fn mid(&self) -> (r: Option<CoapMessageId>)
        ensures
            r == self.msg().mid,
    ;

    /// Assigns or clears the message id.
    fn set_mid(&mut self, mid: Option<CoapMessageId>)
        ensures
            final(self).msg() == (MessageView { mid: mid, ..old(self).msg() }),
    ;

    /// The payload, if one is set.
    fn data(&self) -> (r: &Option<Vec<u8>>)
        ensures
            bytes_opt_view(*r) == self.msg().data,
    ;

    /// Sets or clears the payload.
    fn set_data(&mut self, data: Option<Vec<u8>>)
        ensures
            final(self).msg() == (MessageView { data: bytes_opt_view(data), ..old(self).msg() }),
    ;

    /// The token, if the slot is filled.
    fn token(&self) -> (r: &Option<Vec<u8>>)
        ensures
            bytes_opt_view(*r) == self.msg().token,
    ;

    /// Fills or clears the token slot; a zero-length token still fills it.
    fn set_token(&mut self, token: Option<Vec<u8>>)
        ensures
            final(self).msg() == (MessageView { token: bytes_opt_view(token), ..old(self).msg() }),
    ;
}

impl CoapMessage {
    /// A fresh envelope with the given type and code: no message id, no
    /// options, no token, no payload.
    pub fn new(type_: CoapMessageType, code: CoapMessageCode) -> (r: CoapMessage)
        ensures
            r@ == (MessageView {
                type_: type_,
                code: code,
                mid: None,
                options: Seq::empty(),
                token: None,
                data: None,
            }),
    {
        let r = CoapMessage { type_, code, mid: None, options: Vec::new(), token: None, data: None };
        proof {
            assert(r@.options =~= Seq::<OptV>::empty());
        }
        r
    }
}

impl CoapMessageCommon for CoapMessage {
    open spec fn msg(&self) -> MessageView {
        self@
    }

    open spec fn allows_code(&self, code: CoapMessageCode) -> bool {
        true
    }

    fn add_option(&mut self, option: CoapOption) {
        self.options.push(option);
        proof {
            assert(self@.options =~= old(self)@.options.push(option@));
        }
    }

    fn clear_options(&mut self) {
        self.options.clear();
        proof {
            assert(self@.options =~= Seq::<OptV>::empty());
        }
    }

    fn options(&self) -> (r: &Vec<CoapOption>) {
        &self.options
    }

    fn type_(&self) -> (r: CoapMessageType) {
        self.type_
    }

    fn set_type_(&mut self, type_: CoapMessageType) {
        self.type_ = type_;
    }

    fn code(&self) -> (r: CoapMessageCode) {
        self.code
    }

    fn set_code(&mut self, code: CoapMessageCode) {
        self.code = code;
    }

    fn mid(&self) -> (r: Option<CoapMessageId>) {
        self.mid
    }

    fn set_mid(&mut self, mid: Option<CoapMessageId>) {
        self.mid = mid;
    }

    fn data(&self) -> (r: &Option<Vec<u8>>) {
        &self.data
    }

    fn set_data(&mut self, data: Option<Vec<u8>>) {
        self.data = data;
    }

    fn token(&self) -> (r: &Option<Vec<u8>>) {
        &self.token
    }

    fn set_token(&mut self, token: Option<Vec<u8>>) {
        self.token = token;
    }
}

/// How an outbound payload is handed to the engine: not at all, through the
/// large-data request path (the buffer's ownership transfers to the engine,
/// which frees it once transfer completes), or through the simple response
/// payload call.
#[derive(Clone, Debug, PartialEq, Eq)]
pub enum CoapPayloadTransfer {
    Absent,
    LargeRequest(Vec<u8>),
    SmallResponse(Vec<u8>),
}

/// Mathematical value of a payload hand-off.
#[verifier::ext_equal]
pub enum PayloadTransferV {
    Absent,
    LargeRequest(Seq<u8>),
    SmallResponse(Seq<u8>),
}

impl View for CoapPayloadTransfer {
    type V = PayloadTransferV;

    open spec fn view(&self) -> PayloadTransferV {
        match self {
            CoapPayloadTransfer::Absent => PayloadTransferV::Absent,
            CoapPayloadTransfer::LargeRequest(d) => PayloadTransferV::LargeRequest(d@),
            CoapPayloadTransfer::SmallResponse(d) => PayloadTransferV::SmallResponse(d@),
        }
    }
}

/// Everything the engine needs to build and send a native message from an
/// envelope: header fields, token, the encoded option list in insertion
/// order, and the payload hand-off.
#[derive(Clone, Debug, PartialEq, Eq)]
pub struct CoapTransmit {
    pub type_: CoapMessageType,
    pub code: CoapMessageCode,
    pub mid: CoapMessageId,
    pub token: Vec<u8>,
    pub options: Vec<(CoapOptionNum, Vec<u8>)>,
    pub payload: CoapPayloadTransfer,
}

/// Mathematical value of the parts of a native message.
#[verifier::ext_equal]
pub struct TransmitView {
    pub type_: CoapMessageType,
    pub code: CoapMessageCode,
    pub mid: CoapMessageId,
    pub token: Seq<u8>,
    pub options: Seq<(CoapOptionNum, Seq<u8>)>,
    pub payload: PayloadTransferV,
}

/// The mathematical value of a raw option list.
pub open spec fn raw_opts_view(s: Seq<(CoapOptionNum, Vec<u8>)>) -> Seq<(CoapOptionNum, Seq<u8>)> {
    s.map_values(|p: (CoapOptionNum, Vec<u8>)| (p.0, p.1@))
}

impl View for CoapTransmit {
    type V = TransmitView;

    open spec fn view(&self) -> TransmitView {
        TransmitView {
            type_: self.type_,
            code: self.code,
            mid: self.mid,
            token: self.token@,
            options: raw_opts_view(self.options@),
            payload: self.payload@,
        }
    }
}

/// Encoding an option list: every option in order, stopping at the first
/// failure.
pub open spec fn spec_encode_all(opts: Seq<OptV>) -> Result<
    Seq<(CoapOptionNum, Seq<u8>)>,
    OptionValueError,
>
    decreases opts.len(),
{
    if opts.len() == 0 {
        Ok(Seq::empty())
    } else {
        match spec_encode(opts[0]) {
            Err(e) => Err(e),
            Ok(b) => match spec_encode_all(opts.drop_first()) {
                Err(e) => Err(e),
                Ok(rest) => Ok(seq![(opts[0].num(), b)].add(rest)),
            },
        }
    }
}

/// If every option up to a failing one encodes, the list's encoding fails
/// with exactly that option's error.
proof fn lemma_encode_all_err(opts: Seq<OptV>, i: int, e: OptionValueError)
    requires
        0 <= i < opts.len(),
        forall|j: int| 0 <= j < i ==> (#[trigger] spec_encode(opts[j])) is Ok,
        spec_encode(opts[i]) == Err::<Seq<u8>, OptionValueError>(e),
    ensures
        spec_encode_all(opts) == Err::<Seq<(CoapOptionNum, Seq<u8>)>, OptionValueError>(e),
    decreases opts.len(),
{
    if i > 0 {
        assert(forall|j: int| 0 <= j < i - 1 ==> opts.drop_first()[j] == opts[j + 1]);
        lemma_encode_all_err(opts.drop_first(), i - 1, e);
    }
}

/// If every option encodes, the list's encoding is the pointwise pairing of
/// numbers and value bytes.
proof fn lemma_encode_all_ok(opts: Seq<OptV>, out: Seq<(CoapOptionNum, Seq<u8>)>)
    requires
        out.len() == opts.len(),
        forall|j: int| 0 <= j < opts.len() ==> (#[trigger] spec_encode(opts[j])) is Ok && out[j]
            == (opts[j].num(), spec_value_bytes(opts[j])),
    ensures
        spec_encode_all(opts) == Ok::<Seq<(CoapOptionNum, Seq<u8>)>, OptionValueError>(out),
    decreases opts.len(),
{
    if opts.len() == 0 {
        assert(out =~= Seq::<(CoapOptionNum, Seq<u8>)>::empty());
    } else {
        assert(forall|j: int| 0 <= j < opts.len() - 1 ==> opts.drop_first()[j] == opts[j + 1]);
        lemma_encode_all_ok(opts.drop_first(), out.drop_first());
        assert(out =~= seq![out[0]].add(out.drop_first()));
    }
}

/// What converting an envelope into native parts yields. The message id is
/// required first, then the token slot; options are encoded in order with
/// the first failure aborting; a payload is refused on an empty code, goes
/// through the large-data path on a request code, and through the simple
/// path on a response code.
pub open spec fn spec_transmit(m: MessageView) -> Result<TransmitView, MessageConversionError> {
    if m.mid is None {
        Err(MessageConversionError::MissingMessageId)
    } else if m.token is None {
        Err(MessageConversionError::MissingToken)
    } else {
        match spec_encode_all(m.options) {
            Err(e) => Err(MessageConversionError::InvalidOptionValue(None, e)),
            Ok(encoded) => {
                let base = TransmitView {
                    type_: m.type_,
                    code: m.code,
                    mid: m.mid.unwrap(),
                    token: m.token.unwrap(),
                    options: encoded,
                    payload: PayloadTransferV::Absent,
                };
                match m.data {
                    None => Ok(base),
                    Some(d) => match m.code {
                        CoapMessageCode::Empty => Err(MessageConversionError::DataInEmptyMessage),
                        CoapMessageCode::Request(_) => Ok(
                            TransmitView { payload: PayloadTransferV::LargeRequest(d), ..base },
                        ),
                        CoapMessageCode::Response(_) => Ok(
                            TransmitView { payload: PayloadTransferV::SmallResponse(d), ..base },
                        ),
                    },
                }
            },
        }
    }
}

/// A conversion result, seen at the mathematical level.
pub open spec fn transmit_res_view(r: Result<CoapTransmit, MessageConversionError>) -> Result<
    TransmitView,
    MessageConversionError,
> {
    match r {
        Ok(t) => Ok(t@),
        Err(e) => Err(e),
    }
}

impl CoapMessage {
    /// Converts this envelope into the parts of a native message, consuming
    /// it. Fails if no message id was assigned, if the token slot was never
    /// filled (a zero-length token suffices), if an option's value violates
    /// its registry bounds, or if a payload is present although the code is
    /// empty. On a request code the payload is destined for the engine's
    /// large-data transfer path; on a response code for its simple payload
    /// call.
    #[verifier::rlimit(30)]
    pub fn into_transmit(self) -> (r: Result<CoapTransmit, MessageConversionError>)
        ensures
            transmit_res_view(r) == spec_transmit(self@),
    {
        let ghost m = self@;
        let CoapMessage { type_, code, mid, mut options, token, data } = self;
        let mid = match mid {
            Some(v) => v,
            None => {
                return Err(MessageConversionError::MissingMessageId);
            },
        };
        let token = match token {
            Some(t) => t,
            None => {
                return Err(MessageConversionError::MissingToken);
            },
        };
        let ghost all: Seq<OptV> = m.options;
        let mut encoded: Vec<(CoapOptionNum, Vec<u8>)> = Vec::new();
        proof {
            assert(opts_view(options@) =~= all.skip(0));
        }
        #[verifier::loop_isolation(false)]
        while options.len() > 0
            invariant
                encoded@.len() + options@.len() == all.len(),
                opts_view(options@) == all.skip(encoded@.len() as int),
                forall|j: int|
                    0 <= j < encoded@.len() ==> (#[trigger] spec_encode(all[j])) is Ok
                        && encoded@[j].0 == all[j].num() && encoded@[j].1@ == spec_value_bytes(
                        all[j],
                    ),
            decreases options@.len(),
        {
            let ghost i = encoded@.len() as int;
            let ghost before = options@;
            let opt = options.remove(0);
            proof {
                assert(opts_view(before)[0] == opt@);
                assert(opt@ == all[i]);
                assert forall|k: int|
                    0 <= k < options@.len() implies opts_view(options@)[k] == all.skip(i + 1)[k] by {
                    assert(options@[k] == before[k + 1]);
                    assert(opts_view(before)[k + 1] == all.skip(i)[k + 1]);
                    assert(all.skip(i)[k + 1] == all[i + 1 + k]);
                    assert(all.skip(i + 1)[k] == all[i + 1 + k]);
                }
                assert(opts_view(options@) =~= all.skip(i + 1));
            }
            let num = opt.number();
            match opt.into_value_bytes() {
                Ok(b) => {
                    encoded.push((num, b));
                },
                Err(e) => {
                    proof {
                        lemma_encode_all_err(all, i, e);
                    }
                    return Err(MessageConversionError::InvalidOptionValue(None, e));
                },
            }
        }
        proof {
            assert forall|j: int|
                0 <= j < all.len() implies (#[trigger] spec_encode(all[j])) is Ok && raw_opts_view(
                encoded@,
            )[j] == (all[j].num(), spec_value_bytes(all[j])) by {
                assert(raw_opts_view(encoded@)[j] == (encoded@[j].0, encoded@[j].1@));
            }
            lemma_encode_all_ok(all, raw_opts_view(encoded@));
        }
        let payload = match data {
            None => CoapPayloadTransfer::Absent,
            Some(d) => match code {
                CoapMessageCode::Empty => {
                    return Err(MessageConversionError::DataInEmptyMessage);
                },
                CoapMessageCode::Request(_) => CoapPayloadTransfer::LargeRequest(d),
                CoapMessageCode::Response(_) => CoapPayloadTransfer::SmallResponse(d),
            },
        };
        Ok(CoapTransmit { type_, code, mid, token, options: encoded, payload })
    }
}

/// Decoding a raw option list: every pair in order, stopping at the first
/// failure.
pub open spec fn spec_decode_all(raw: Seq<(CoapOptionNum, Seq<u8>)>) -> Result<
    Seq<OptV>,
    OptionValueError,
>
    decreases raw.len(),
{
    if raw.len() == 0 {
        Ok(Seq::empty())
    } else {
        match spec_decode(raw[0].0, raw[0].1) {
            Err(e) => Err(e),
            Ok(o) => match spec_decode_all(raw.drop_first()) {
                Err(e) => Err(e),
                Ok(rest) => Ok(seq![o].add(rest)),
            },
        }
    }
}

/// If every pair up to a failing one decodes, the list's decoding fails
/// with exactly that pair's error.
proof fn lemma_decode_all_err(raw: Seq<(CoapOptionNum, Seq<u8>)>, i: int, e: OptionValueError)
    requires
        0 <= i < raw.len(),
        forall|j: int| 0 <= j < i ==> (#[trigger] spec_decode(raw[j].0, raw[j].1)) is Ok,
        spec_decode(raw[i].0, raw[i].1) == Err::<OptV, OptionValueError>(e),
    ensures
        spec_decode_all(raw) == Err::<Seq<OptV>, OptionValueError>(e),
    decreases raw.len(),
{
    if i > 0 {
        assert(forall|j: int| 0 <= j < i - 1 ==> raw.drop_first()[j] == raw[j + 1]);
        lemma_decode_all_err(raw.drop_first(), i - 1, e);
    }
}

/// If every pair decodes, the list's decoding is the pointwise decoding.
proof fn lemma_decode_all_ok(raw: Seq<(CoapOptionNum, Seq<u8>)>, out: Seq<OptV>)
    requires
        out.len() == raw.len(),
        forall|j: int| 0 <= j < raw.len() ==> (#[trigger] spec_decode(raw[j].0, raw[j].1)) == Ok::<
            OptV,
            OptionValueError,
        >(out[j]),
    ensures
        spec_decode_all(raw) == Ok::<Seq<OptV>, OptionValueError>(out),
    decreases raw.len(),
{
    if raw.len() == 0 {
        assert(out =~= Seq::<OptV>::empty());
    } else {
        assert(forall|j: int| 0 <= j < raw.len() - 1 ==> raw.drop_first()[j] == raw[j + 1]);
        lemma_decode_all_ok(raw.drop_first(), out.drop_first());
        assert(out =~= seq![out[0]].add(out.drop_first()));
    }
}

/// What assembling an envelope from the parts of a received native message
/// yields: each raw option decoded in order with the first failure
/// aborting, and token and payload copied verbatim.
pub open spec fn spec_from_native(
    type_: CoapMessageType,
    code: CoapMessageCode,
    mid: CoapMessageId,
    token: Seq<u8>,
    raw: Seq<(CoapOptionNum, Seq<u8>)>,
    data: Seq<u8>,
) -> Result<MessageView, MessageConversionError> {
    match spec_decode_all(raw) {
        Err(e) => Err(MessageConversionError::InvalidOptionValue(None, e)),
        Ok(opts) => Ok(
            MessageView {
                type_: type_,
                code: code,
                mid: Some(mid),
                options: opts,
                token: Some(token),
                data: Some(data),
            },
        ),
    }
}

/// An assembly result, seen at the mathematical level.
pub open spec fn message_res_view(r: Result<CoapMessage, MessageConversionError>) -> Result<
    MessageView,
    MessageConversionError,
> {
    match r {
        Ok(m) => Ok(m@),
        Err(e) => Err(e),
    }
}

impl CoapMessage {
    /// Assembles an envelope from the parts of a received native message,
    /// decoding each raw option in order and aborting on the first option
    /// whose value is invalid.
    pub fn from_native_parts(
        type_: CoapMessageType,
        code: CoapMessageCode,
        mid: CoapMessageId,
        token: Vec<u8>,
        raw_options: Vec<(CoapOptionNum, Vec<u8>)>,
        data: Vec<u8>,
    ) -> (r: Result<CoapMessage, MessageConversionError>)
        ensures
            message_res_view(r) == spec_from_native(
                type_,
                code,
                mid,
                token@,
                raw_opts_view(raw_options@),
                data@,
            ),
    {
        let ghost all: Seq<(CoapOptionNum, Seq<u8>)> = raw_opts_view(raw_options@);
        let mut raw = raw_options;
        let mut options: Vec<CoapOption> = Vec::new();
        proof {
            assert(raw_opts_view(raw@) =~= all.skip(0));
        }
        #[verifier::loop_isolation(false)]
        while raw.len() > 0
            invariant
                options@.len() + raw@.len() == all.len(),
                raw_opts_view(raw@) == all.skip(options@.len() as int),
                forall|j: int|
                    0 <= j < options@.len() ==> (#[trigger] spec_decode(all[j].0, all[j].1))
                        == Ok::<OptV, OptionValueError>(options@[j]@),
            decreases raw@.len(),
        {
            let ghost i = options@.len() as int;
            let ghost before = raw@;
            let entry = raw.remove(0);
            proof {
                assert(raw_opts_view(before)[0] == (entry.0, entry.1@));
                assert((entry.0, entry.1@) == all[i]);
                assert forall|k: int|
                    0 <= k < raw@.len() implies raw_opts_view(raw@)[k] == all.skip(i + 1)[k] by {
                    assert(raw@[k] == before[k + 1]);
                    assert(raw_opts_view(before)[k + 1] == all.skip(i)[k + 1]);
                    assert(all.skip(i)[k + 1] == all[i + 1 + k]);
                    assert(all.skip(i + 1)[k] == all[i + 1 + k]);
                }
                assert(raw_opts_view(raw@) =~= all.skip(i + 1));
            }
            match CoapOption::decode(entry.0, entry.1) {
                Ok(o) => {
                    options.push(o);
                },
                Err(e) => {
                    proof {
                        lemma_decode_all_err(all, i, e);
                    }
                    return Err(MessageConversionError::InvalidOptionValue(None, e));
                },
            }
        }
        proof {
            lemma_decode_all_ok(all, opts_view(options@));
        }
        Ok(
            CoapMessage {
                type_,
                code,
                mid: Some(mid),
                options,
                token: Some(token),
                data: Some(data),
            },
        )
    }
}

} // verus!
