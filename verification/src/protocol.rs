//! Protocol-level vocabulary: message types, message codes, and the closed
//! registry of recognized options with their value-length bounds.

use vstd::prelude::*;

verus! {

/// Identifier for a message (used for deduplication and acknowledgement matching).
pub type CoapMessageId = u16;

/// Raw number of an option on the wire.
pub type CoapOptionNum = u16;

/// Value of a Content-Format or Accept option.
pub type ContentFormat = u16;

/// Value of an ETag option.
pub type ETag = Vec<u8>;

/// Value of an Echo option.
pub type Echo = Vec<u8>;

/// Value of a Hop-Limit option.
pub type HopLimit = u16;

/// Value of a Max-Age option, in seconds.
pub type MaxAge = u32;

/// Value of a No-Response option.
pub type NoResponse = u8;

/// Value of an Observe option (sequence counter).
pub type Observe = u32;

/// Value of a Size1 or Size2 option.
pub type Size = u32;

/// Value of a block-transfer option.
pub type Block = u32;

/// Value of a Uri-Host option.
pub type UriHost = String;

/// Value of a single Uri-Path or Location-Path segment.
pub type UriPath = String;

/// Value of a Uri-Port option.
pub type UriPort = u16;

/// Value of a single Uri-Query or Location-Query segment.
pub type UriQuery = String;

/// Value of a Proxy-Uri option.
pub type ProxyUri = String;

/// Value of a Proxy-Scheme option.
pub type ProxyScheme = String;

/// Value of an If-Match option: either the empty match ("any representation")
/// or a specific entity tag.
#[derive(Clone, Debug, PartialEq, Eq)]
pub enum CoapMatch {
    Empty,
    ETag(Vec<u8>),
}

/// Transmission type of a message.
#[derive(Clone, Copy, Debug, PartialEq, Eq, Structural)]
pub enum CoapMessageType {
    Con,
    Non,
    Ack,
    Rst,
}

/// Method code carried by a request.
#[derive(Clone, Copy, Debug, PartialEq, Eq, Structural)]
pub enum CoapRequestCode {
    Get,
    Post,
    Put,
    Delete,
    Fetch,
    Patch,
    IPatch,
}

/// Status code carried by a response.
#[derive(Clone, Copy, Debug, PartialEq, Eq, Structural)]
pub enum CoapResponseCode {
    Created,
    Deleted,
    Valid,
    Changed,
    Content,
    Continue,
    BadRequest,
    Unauthorized,
    BadOption,
    Forbidden,
    NotFound,
    MethodNotAllowed,
    NotAcceptable,
    RequestEntityIncomplete,
    Conflict,
    PreconditionFailed,
    RequestEntityTooLarge,
    UnsupportedContentFormat,
    UnprocessableEntity,
    TooManyRequests,
    InternalServerError,
    NotImplemented,
    BadGateway,
    ServiceUnavailable,
    GatewayTimeout,
    ProxyingNotSupported,
    HopLimitReached,
}

/// Code of a message: empty, a request method, or a response status.
#[derive(Clone, Copy, Debug, PartialEq, Eq, Structural)]
pub enum CoapMessageCode {
    Empty,
    Request(CoapRequestCode),
    Response(CoapResponseCode),
}

/// A recognized option number. Options outside this registry are carried
/// verbatim through the escape variant of the option model.
#[derive(Clone, Copy, Debug, PartialEq, Eq, Structural)]
pub enum CoapOptionType {
    IfMatch,
    UriHost,
    ETag,
    IfNoneMatch,
    Observe,
    UriPort,
    LocationPath,
    OsCore,
    UriPath,
    ContentFormat,
    MaxAge,
    UriQuery,
    HopLimit,
    Accept,
    QBlock1,
    LocationQuery,
    Block2,
    Block1,
    Size2,
    QBlock2,
    ProxyUri,
    ProxyScheme,
    Size1,
    Echo,
    NoResponse,
    RTag,
}

impl CoapOptionType {
    /// The option number this registry entry stands for.
    pub open spec fn spec_number(self) -> u16 {
        match self {
            CoapOptionType::IfMatch => 1,
            CoapOptionType::UriHost => 3,
            CoapOptionType::ETag => 4,
            CoapOptionType::IfNoneMatch => 5,
            CoapOptionType::Observe => 6,
            CoapOptionType::UriPort => 7,
            CoapOptionType::LocationPath => 8,
            CoapOptionType::OsCore => 9,
            CoapOptionType::UriPath => 11,
            CoapOptionType::ContentFormat => 12,
            CoapOptionType::MaxAge => 14,
            CoapOptionType::UriQuery => 15,
            CoapOptionType::HopLimit => 16,
            CoapOptionType::Accept => 17,
            CoapOptionType::QBlock1 => 19,
            CoapOptionType::LocationQuery => 20,
            CoapOptionType::Block2 => 23,
            CoapOptionType::Block1 => 27,
            CoapOptionType::Size2 => 28,
            CoapOptionType::QBlock2 => 31,
            CoapOptionType::ProxyUri => 35,
            CoapOptionType::ProxyScheme => 39,
            CoapOptionType::Size1 => 60,
            CoapOptionType::Echo => 252,
            CoapOptionType::NoResponse => 258,
            CoapOptionType::RTag => 292,
        }
    }

    /// Least admissible byte length of a value of this option.
    pub open spec fn spec_min_len(self) -> nat {
        match self {
            CoapOptionType::IfMatch => 0,
            CoapOptionType::UriHost => 1,
            CoapOptionType::ETag => 1,
            CoapOptionType::IfNoneMatch => 0,
            CoapOptionType::Observe => 0,
            CoapOptionType::UriPort => 0,
            CoapOptionType::LocationPath => 0,
            CoapOptionType::OsCore => 0,
            CoapOptionType::UriPath => 0,
            CoapOptionType::ContentFormat => 0,
            CoapOptionType::MaxAge => 0,
            CoapOptionType::UriQuery => 0,
            CoapOptionType::HopLimit => 1,
            CoapOptionType::Accept => 0,
            CoapOptionType::QBlock1 => 0,
            CoapOptionType::LocationQuery => 0,
            CoapOptionType::Block2 => 0,
            CoapOptionType::Block1 => 0,
            CoapOptionType::Size2 => 0,
            CoapOptionType::QBlock2 => 0,
            CoapOptionType::ProxyUri => 1,
            CoapOptionType::ProxyScheme => 1,
            CoapOptionType::Size1 => 0,
            CoapOptionType::Echo => 1,
            CoapOptionType::NoResponse => 0,
            CoapOptionType::RTag => 0,
        }
    }

    /// Greatest admissible byte length of a value of this option.
    pub open spec fn spec_max_len(self) -> nat {
        match self {
            CoapOptionType::IfMatch => 8,
            CoapOptionType::UriHost => 255,
            CoapOptionType::ETag => 8,
            CoapOptionType::IfNoneMatch => 0,
            CoapOptionType::Observe => 3,
            CoapOptionType::UriPort => 2,
            CoapOptionType::LocationPath => 255,
            CoapOptionType::OsCore => 255,
            CoapOptionType::UriPath => 255,
            CoapOptionType::ContentFormat => 2,
            CoapOptionType::MaxAge => 4,
            CoapOptionType::UriQuery => 255,
            CoapOptionType::HopLimit => 1,
            CoapOptionType::Accept => 2,
            CoapOptionType::QBlock1 => 3,
            CoapOptionType::LocationQuery => 255,
            CoapOptionType::Block2 => 3,
            CoapOptionType::Block1 => 3,
            CoapOptionType::Size2 => 4,
            CoapOptionType::QBlock2 => 3,
            CoapOptionType::ProxyUri => 1034,
            CoapOptionType::ProxyScheme => 255,
            CoapOptionType::Size1 => 4,
            CoapOptionType::Echo => 40,
            CoapOptionType::NoResponse => 1,
            CoapOptionType::RTag => 8,
        }
    }

    /// Registry lookup: the entry a number belongs to, if any.
    pub open spec fn spec_of_number(number: u16) -> Option<CoapOptionType> {
        if number == 1 {
            Some(CoapOptionType::IfMatch)
        } else if number == 3 {
            Some(CoapOptionType::UriHost)
        } else if number == 4 {
            Some(CoapOptionType::ETag)
        } else if number == 5 {
            Some(CoapOptionType::IfNoneMatch)
        } else if number == 6 {
            Some(CoapOptionType::Observe)
        } else if number == 7 {
            Some(CoapOptionType::UriPort)
        } else if number == 8 {
            Some(CoapOptionType::LocationPath)
        } else if number == 9 {
            Some(CoapOptionType::OsCore)
        } else if number == 11 {
            Some(CoapOptionType::UriPath)
        } else if number == 12 {
            Some(CoapOptionType::ContentFormat)
        } else if number == 14 {
            Some(CoapOptionType::MaxAge)
        } else if number == 15 {
            Some(CoapOptionType::UriQuery)
        } else if number == 16 {
            Some(CoapOptionType::HopLimit)
        } else if number == 17 {
            Some(CoapOptionType::Accept)
        } else if number == 19 {
            Some(CoapOptionType::QBlock1)
        } else if number == 20 {
            Some(CoapOptionType::LocationQuery)
        } else if number == 23 {
            Some(CoapOptionType::Block2)
        } else if number == 27 {
            Some(CoapOptionType::Block1)
        } else if number == 28 {
            Some(CoapOptionType::Size2)
        } else if number == 31 {
            Some(CoapOptionType::QBlock2)
        } else if number == 35 {
            Some(CoapOptionType::ProxyUri)
        } else if number == 39 {
            Some(CoapOptionType::ProxyScheme)
        } else if number == 60 {
            Some(CoapOptionType::Size1)
        } else if number == 252 {
            Some(CoapOptionType::Echo)
        } else if number == 258 {
            Some(CoapOptionType::NoResponse)
        } else if number == 292 {
            Some(CoapOptionType::RTag)
        } else {
            None
        }
    }

    /// The option number this registry entry stands for.
    pub fn number(self) -> (r: u16)
        ensures
            r == self.spec_number(),
    {
        match self {
            CoapOptionType::IfMatch => 1,
            CoapOptionType::UriHost => 3,
            CoapOptionType::ETag => 4,
            CoapOptionType::IfNoneMatch => 5,
            CoapOptionType::Observe => 6,
            CoapOptionType::UriPort => 7,
            CoapOptionType::LocationPath => 8,
            CoapOptionType::OsCore => 9,
            CoapOptionType::UriPath => 11,
            CoapOptionType::ContentFormat => 12,
            CoapOptionType::MaxAge => 14,
            CoapOptionType::UriQuery => 15,
            CoapOptionType::HopLimit => 16,
            CoapOptionType::Accept => 17,
            CoapOptionType::QBlock1 => 19,
            CoapOptionType::LocationQuery => 20,
            CoapOptionType::Block2 => 23,
            CoapOptionType::Block1 => 27,
            CoapOptionType::Size2 => 28,
            CoapOptionType::QBlock2 => 31,
            CoapOptionType::ProxyUri => 35,
            CoapOptionType::ProxyScheme => 39,
            CoapOptionType::Size1 => 60,
            CoapOptionType::Echo => 252,
            CoapOptionType::NoResponse => 258,
            CoapOptionType::RTag => 292,
        }
    }

    /// Least admissible byte length of a value of this option.
    pub fn min_len(self) -> (r: usize)
        ensures
            r == self.spec_min_len(),
    {
        match self {
            CoapOptionType::UriHost => 1,
            CoapOptionType::ETag => 1,
            CoapOptionType::HopLimit => 1,
            CoapOptionType::ProxyUri => 1,
            CoapOptionType::ProxyScheme => 1,
            CoapOptionType::Echo => 1,
            _ => 0,
        }
    }

    /// Greatest admissible byte length of a value of this option.
    pub fn max_len(self) -> (r: usize)
        ensures
            r == self.spec_max_len(),
    {
        match self {
            CoapOptionType::IfMatch => 8,
            CoapOptionType::UriHost => 255,
            CoapOptionType::ETag => 8,
            CoapOptionType::IfNoneMatch => 0,
            CoapOptionType::Observe => 3,
            CoapOptionType::UriPort => 2,
            CoapOptionType::LocationPath => 255,
            CoapOptionType::OsCore => 255,
            CoapOptionType::UriPath => 255,
            CoapOptionType::ContentFormat => 2,
            CoapOptionType::MaxAge => 4,
            CoapOptionType::UriQuery => 255,
            CoapOptionType::HopLimit => 1,
            CoapOptionType::Accept => 2,
            CoapOptionType::QBlock1 => 3,
            CoapOptionType::LocationQuery => 255,
            CoapOptionType::Block2 => 3,
            CoapOptionType::Block1 => 3,
            CoapOptionType::Size2 => 4,
            CoapOptionType::QBlock2 => 3,
            CoapOptionType::ProxyUri => 1034,
            CoapOptionType::ProxyScheme => 255,
            CoapOptionType::Size1 => 4,
            CoapOptionType::Echo => 40,
            CoapOptionType::NoResponse => 1,
            CoapOptionType::RTag => 8,
        }
    }

    /// Registry lookup: the entry a number belongs to, if any.
    pub fn from_number(number: u16) -> (r: Option<CoapOptionType>)
        ensures
            r == Self::spec_of_number(number),
    {
        match number {
            1 => Some(CoapOptionType::IfMatch),
            3 => Some(CoapOptionType::UriHost),
            4 => Some(CoapOptionType::ETag),
            5 => Some(CoapOptionType::IfNoneMatch),
            6 => Some(CoapOptionType::Observe),
            7 => Some(CoapOptionType::UriPort),
            8 => Some(CoapOptionType::LocationPath),
            9 => Some(CoapOptionType::OsCore),
            11 => Some(CoapOptionType::UriPath),
            12 => Some(CoapOptionType::ContentFormat),
            14 => Some(CoapOptionType::MaxAge),
            15 => Some(CoapOptionType::UriQuery),
            16 => Some(CoapOptionType::HopLimit),
            17 => Some(CoapOptionType::Accept),
            19 => Some(CoapOptionType::QBlock1),
            20 => Some(CoapOptionType::LocationQuery),
            23 => Some(CoapOptionType::Block2),
            27 => Some(CoapOptionType::Block1),
            28 => Some(CoapOptionType::Size2),
            31 => Some(CoapOptionType::QBlock2),
            35 => Some(CoapOptionType::ProxyUri),
            39 => Some(CoapOptionType::ProxyScheme),
            60 => Some(CoapOptionType::Size1),
            252 => Some(CoapOptionType::Echo),
            258 => Some(CoapOptionType::NoResponse),
            292 => Some(CoapOptionType::RTag),
            _ => None,
        }
    }
}

/// The registry maps each entry's own number back to the entry.
pub proof fn lemma_registry_number_lookup(t: CoapOptionType)
    ensures
        CoapOptionType::spec_of_number(t.spec_number()) == Some(t),
{
}

} // verus!
