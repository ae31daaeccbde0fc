//! The response semantic layer: a typed view over a message envelope that
//! validates per-option applicability and cardinality while decoding, and
//! re-emits its typed fields as options while encoding.

use vstd::prelude::*;

use crate::error::{MessageConversionError, MessageTypeError, OptionValueError};
use crate::message::{
    bytes_opt_view, opts_view, CoapMessage, CoapMessageCommon, CoapOption, MessageView, OptV,
};
use crate::protocol::{
    CoapMessageCode, CoapMessageId, CoapMessageType, CoapOptionType, CoapResponseCode,
    ContentFormat, ETag, Echo, MaxAge, Observe,
};
use crate::uri::{segs_opt_view, segs_view, CoapUri, UriV};

verus! {

/// A URI usable as a response location: structurally a URI, restricted to
/// carry no scheme, host or port.
#[derive(Clone, Debug, PartialEq, Eq)]
pub struct CoapResponseLocation(CoapUri);

impl View for CoapResponseLocation {
    type V = UriV;

    closed spec fn view(&self) -> UriV {
        self.0@
    }
}

/// The options a path segment list is emitted as, in order.
pub open spec fn spec_path_options(p: Seq<Seq<char>>) -> Seq<OptV> {
    p.map_values(|s: Seq<char>| OptV::LocationPath(s))
}

/// The options a query segment list is emitted as, in order.
pub open spec fn spec_query_options(q: Seq<Seq<char>>) -> Seq<OptV> {
    q.map_values(|s: Seq<char>| OptV::LocationQuery(s))
}

/// The options a location is emitted as: all path segments, then all query
/// segments.
pub open spec fn spec_location_options(u: UriV) -> Seq<OptV> {
    (match u.path {
        Some(p) => spec_path_options(p),
        None => Seq::empty(),
    }) + (match u.query {
        Some(q) => spec_query_options(q),
        None => Seq::empty(),
    })
}

/// Appends one location-path option per segment, in order.
fn push_path_options(options: &mut Vec<CoapOption>, segs: Vec<String>)
    ensures
        opts_view(final(options)@) == opts_view(old(options)@) + spec_path_options(
            segs_view(segs@),
        ),
{
    let ghost all = segs_view(segs@);
    let ghost base = opts_view(old(options)@);
    let mut segs = segs;
    proof {
        assert(segs_view(segs@) =~= all.skip(0));
        assert(opts_view(options@) =~= base + spec_path_options(all.take(0)));
    }
    #[verifier::loop_isolation(false)]
    while segs.len() > 0
        invariant
            opts_view(options@).len() == base.len() + all.len() - segs@.len(),
            segs_view(segs@) == all.skip(all.len() - segs@.len()),
            opts_view(options@) == base + spec_path_options(all.take(all.len() - segs@.len())),
        decreases segs@.len(),
    {
        let ghost k = all.len() - segs@.len();
        let ghost before = segs@;
        let seg = segs.remove(0);
        proof {
            assert(segs_view(before)[0] == seg@);
            assert(seg@ == all[k]);
            assert forall|j: int|
                0 <= j < segs@.len() implies segs_view(segs@)[j] == all.skip(k + 1)[j] by {
                assert(segs@[j] == before[j + 1]);
                assert(segs_view(before)[j + 1] == all.skip(k)[j + 1]);
            }
            assert(segs_view(segs@) =~= all.skip(k + 1));
        }
        options.push(CoapOption::LocationPath(seg));
        proof {
            assert(opts_view(options@) =~= (base + spec_path_options(all.take(k))).push(
                OptV::LocationPath(all[k]),
            ));
            assert(spec_path_options(all.take(k + 1)) =~= spec_path_options(all.take(k)).push(
                OptV::LocationPath(all[k]),
            ));
            assert(opts_view(options@) =~= base + spec_path_options(all.take(k + 1)));
        }
    }
    proof {
        assert(all.take(all.len() as int) =~= all);
    }
}

/// Appends one location-query option per segment, in order.
fn push_query_options(options: &mut Vec<CoapOption>, segs: Vec<String>)
    ensures
        opts_view(final(options)@) == opts_view(old(options)@) + spec_query_options(
            segs_view(segs@),
        ),
{
    let ghost all = segs_view(segs@);
    let ghost base = opts_view(old(options)@);
    let mut segs = segs;
    proof {
        assert(segs_view(segs@) =~= all.skip(0));
        assert(opts_view(options@) =~= base + spec_query_options(all.take(0)));
    }
    #[verifier::loop_isolation(false)]
    while segs.len() > 0
        invariant
            opts_view(options@).len() == base.len() + all.len() - segs@.len(),
            segs_view(segs@) == all.skip(all.len() - segs@.len()),
            opts_view(options@) == base + spec_query_options(all.take(all.len() - segs@.len())),
        decreases segs@.len(),
    {
        let ghost k = all.len() - segs@.len();
        let ghost before = segs@;
        let seg = segs.remove(0);
        proof {
            assert(segs_view(before)[0] == seg@);
            assert(seg@ == all[k]);
            assert forall|j: int|
                0 <= j < segs@.len() implies segs_view(segs@)[j] == all.skip(k + 1)[j] by {
                assert(segs@[j] == before[j + 1]);
                assert(segs_view(before)[j + 1] == all.skip(k)[j + 1]);
            }
            assert(segs_view(segs@) =~= all.skip(k + 1));
        }
        options.push(CoapOption::LocationQuery(seg));
        proof {
            assert(opts_view(options@) =~= (base + spec_query_options(all.take(k))).push(
                OptV::LocationQuery(all[k]),
            ));
            assert(spec_query_options(all.take(k + 1)) =~= spec_query_options(all.take(k)).push(
                OptV::LocationQuery(all[k]),
            ));
            assert(opts_view(options@) =~= base + spec_query_options(all.take(k + 1)));
        }
    }
    proof {
        assert(all.take(all.len() as int) =~= all);
    }
}

impl CoapResponseLocation {
    /// Restricts a URI to a response location, rejecting one that carries a
    /// scheme, a host or a port.
    pub fn new_response_location(uri: CoapUri) -> (r: Result<
        CoapResponseLocation,
        OptionValueError,
    >)
        ensures
            (match r {
                Ok(l) => uri@.scheme is None && uri@.host is None && uri@.port is None && l@
                    == uri@,
                Err(e) => (uri@.scheme is Some || uri@.host is Some || uri@.port is Some) && e
                    == OptionValueError::IllegalValue,
            }),
    {
        if uri.scheme().is_some() || uri.host().is_some() || uri.port().is_some() {
            return Err(OptionValueError::IllegalValue);
        }
        Ok(CoapResponseLocation(uri))
    }

    /// Emits this location as options: every path segment in order, then
    /// every query segment in order.
    pub fn into_options(self) -> (r: Vec<CoapOption>)
        ensures
            opts_view(r@) == spec_location_options(self@),
    {
        let ghost u = self@;
        let CoapResponseLocation(mut uri) = self;
        let mut options: Vec<CoapOption> = Vec::new();
        proof {
            assert(opts_view(options@) =~= Seq::<OptV>::empty());
        }
        match uri.drain_path() {
            Some(path) => {
                push_path_options(&mut options, path);
            },
            None => {},
        }
        match uri.drain_query() {
            Some(query) => {
                push_query_options(&mut options, query);
            },
            None => {},
        }
        proof {
            assert(opts_view(options@) =~= spec_location_options(u));
        }
        options
    }

    /// The underlying URI.
    pub fn as_uri(&self) -> (r: &CoapUri)
        ensures
            r@ == self@,
    {
        &self.0
    }
}

/// The typed fields gathered while classifying a response's options.
#[verifier::ext_equal]
pub struct FieldsV {
    pub content_format: Option<u16>,
    pub max_age: Option<u32>,
    pub etag: Option<Seq<u8>>,
    pub echo: Option<Seq<u8>>,
    pub observe: Option<u32>,
    pub location_path: Option<Seq<Seq<char>>>,
    pub location_query: Option<Seq<Seq<char>>>,
}

/// No field gathered yet.
pub open spec fn empty_fields() -> FieldsV {
    FieldsV {
        content_format: None,
        max_age: None,
        etag: None,
        echo: None,
        observe: None,
        location_path: None,
        location_query: None,
    }
}

/// Classification of one option of a response. Location segments are
/// accumulated in order; single-valued options are rejected on their second
/// appearance; options not applicable to a response are rejected outright;
/// block-transfer, request-tag and security options are the engine's
/// business and pass through, as do unrecognized options, which the
/// envelope retains.
pub open spec fn spec_classify_step(acc: FieldsV, o: OptV) -> Result<
    FieldsV,
    MessageConversionError,
> {
    match o {
        OptV::LocationPath(s) => Ok(
            FieldsV {
                location_path: Some(
                    match acc.location_path {
                        Some(p) => p.push(s),
                        None => seq![s],
                    },
                ),
                ..acc
            },
        ),
        OptV::LocationQuery(s) => Ok(
            FieldsV {
                location_query: Some(
                    match acc.location_query {
                        Some(q) => q.push(s),
                        None => seq![s],
                    },
                ),
                ..acc
            },
        ),
        OptV::ETag(b) => if acc.etag is Some {
            Err(MessageConversionError::NonRepeatableOptionRepeated(CoapOptionType::ETag))
        } else {
            Ok(FieldsV { etag: Some(b), ..acc })
        },
        OptV::MaxAge(v) => if acc.max_age is Some {
            Err(MessageConversionError::NonRepeatableOptionRepeated(CoapOptionType::MaxAge))
        } else {
            Ok(FieldsV { max_age: Some(v), ..acc })
        },
        OptV::Observe(v) => if acc.observe is Some {
            Err(MessageConversionError::NonRepeatableOptionRepeated(CoapOptionType::Observe))
        } else {
            Ok(FieldsV { observe: Some(v), ..acc })
        },
        OptV::ContentFormat(v) => if acc.content_format is Some {
            Err(MessageConversionError::NonRepeatableOptionRepeated(CoapOptionType::ContentFormat))
        } else {
            Ok(FieldsV { content_format: Some(v), ..acc })
        },
        OptV::Echo(b) => if acc.echo is Some {
            Err(MessageConversionError::NonRepeatableOptionRepeated(CoapOptionType::Echo))
        } else {
            Ok(FieldsV { echo: Some(b), ..acc })
        },
        OptV::IfMatch(_) => Err(
            MessageConversionError::InvalidOptionForMessageType(CoapOptionType::IfMatch),
        ),
        OptV::IfNoneMatch => Err(
            MessageConversionError::InvalidOptionForMessageType(CoapOptionType::IfNoneMatch),
        ),
        OptV::UriHost(_) => Err(
            MessageConversionError::InvalidOptionForMessageType(CoapOptionType::UriHost),
        ),
        OptV::UriPort(_) => Err(
            MessageConversionError::InvalidOptionForMessageType(CoapOptionType::UriPort),
        ),
        OptV::UriPath(_) => Err(
            MessageConversionError::InvalidOptionForMessageType(CoapOptionType::UriPath),
        ),
        OptV::UriQuery(_) => Err(
            MessageConversionError::InvalidOptionForMessageType(CoapOptionType::UriQuery),
        ),
        OptV::ProxyUri(_) => Err(
            MessageConversionError::InvalidOptionForMessageType(CoapOptionType::ProxyUri),
        ),
        OptV::ProxyScheme(_) => Err(
            MessageConversionError::InvalidOptionForMessageType(CoapOptionType::ProxyScheme),
        ),
        OptV::Accept(_) => Err(
            MessageConversionError::InvalidOptionForMessageType(CoapOptionType::Accept),
        ),
        OptV::Size1(_) => Err(
            MessageConversionError::InvalidOptionForMessageType(CoapOptionType::Size1),
        ),
        OptV::Block1(_) => Err(
            MessageConversionError::InvalidOptionForMessageType(CoapOptionType::Block1),
        ),
        OptV::HopLimit(_) => Err(
            MessageConversionError::InvalidOptionForMessageType(CoapOptionType::HopLimit),
        ),
        OptV::NoResponse(_) => Err(
            MessageConversionError::InvalidOptionForMessageType(CoapOptionType::NoResponse),
        ),
        OptV::Size2(_) => Ok(acc),
        OptV::Block2(_) => Ok(acc),
        OptV::QBlock1(_) => Ok(acc),
        OptV::QBlock2(_) => Ok(acc),
        OptV::RTag(_) => Ok(acc),
        OptV::OsCore(_) => Ok(acc),
        OptV::Other(_, _) => Ok(acc),
    }
}

/// Classification of an option list, left to right, stopping at the first
/// failure.
pub open spec fn spec_classify_from(opts: Seq<OptV>, acc: FieldsV) -> Result<
    FieldsV,
    MessageConversionError,
>
    decreases opts.len(),
{
    if opts.len() == 0 {
        Ok(acc)
    } else {
        match spec_classify_step(acc, opts[0]) {
            Err(e) => Err(e),
            Ok(a2) => spec_classify_from(opts.drop_first(), a2),
        }
    }
}

/// One unfolding step of the left-to-right classification.
proof fn lemma_classify_from_step(opts: Seq<OptV>, i: int, acc: FieldsV)
    requires
        0 <= i < opts.len(),
    ensures
        spec_classify_from(opts.skip(i), acc) == (match spec_classify_step(acc, opts[i]) {
            Err(e) => Err::<FieldsV, MessageConversionError>(e),
            Ok(a2) => spec_classify_from(opts.skip(i + 1), a2),
        }),
{
    assert(opts.skip(i)[0] == opts[i]);
    assert(opts.skip(i).drop_first() =~= opts.skip(i + 1));
}

/// What decoding an envelope into a response yields: the classified typed
/// fields over the envelope, with a location present exactly when at least
/// one location segment was.
pub open spec fn spec_from_message(m: MessageView) -> Result<ResponseV, MessageConversionError> {
    match spec_classify_from(m.options, empty_fields()) {
        Err(e) => Err(e),
        Ok(f) => Ok(
            ResponseV {
                pdu: m,
                content_format: f.content_format,
                max_age: f.max_age,
                etag: f.etag,
                echo: f.echo,
                observe: f.observe,
                location: if f.location_path is Some || f.location_query is Some {
                    Some(
                        UriV {
                            scheme: None,
                            host: None,
                            port: None,
                            path: f.location_path,
                            query: f.location_query,
                        },
                    )
                } else {
                    None
                },
            },
        ),
    }
}

/// Mathematical value of a response.
#[verifier::ext_equal]
pub struct ResponseV {
    pub pdu: MessageView,
    pub content_format: Option<u16>,
    pub max_age: Option<u32>,
    pub etag: Option<Seq<u8>>,
    pub echo: Option<Seq<u8>>,
    pub location: Option<UriV>,
    pub observe: Option<u32>,
}

/// The mathematical value of an optional location.
pub open spec fn loc_opt_view(o: Option<CoapResponseLocation>) -> Option<UriV> {
    match o {
        Some(l) => Some(l@),
        None => None,
    }
}

/// A response: an envelope together with extracted, validated values for
/// the options a response interprets.
#[derive(Clone, Debug, PartialEq, Eq)]
pub struct CoapResponse {
    pdu: CoapMessage,
    content_format: Option<ContentFormat>,
    max_age: Option<MaxAge>,
    etag: Option<ETag>,
    echo: Option<Echo>,
    location: Option<CoapResponseLocation>,
    observe: Option<Observe>,
}

impl View for CoapResponse {
    type V = ResponseV;

    closed spec fn view(&self) -> ResponseV {
        ResponseV {
            pdu: self.pdu@,
            content_format: self.content_format,
            max_age: self.max_age,
            etag: bytes_opt_view(self.etag),
            echo: bytes_opt_view(self.echo),
            location: loc_opt_view(self.location),
            observe: self.observe,
        }
    }
}

/// A decode result, seen at the mathematical level.
pub open spec fn response_res_view(r: Result<CoapResponse, MessageConversionError>) -> Result<
    ResponseV,
    MessageConversionError,
> {
    match r {
        Ok(resp) => Ok(resp@),
        Err(e) => Err(e),
    }
}

impl CoapResponse {
    /// A fresh response with the given message type and status code. Only a
    /// confirmable, non-confirmable or acknowledgement type is admitted: a
    /// reset message carries no response semantics and is rejected.
    pub fn new(type_: CoapMessageType, code: CoapResponseCode) -> (r: Result<
        CoapResponse,
        MessageTypeError,
    >)
        ensures
            (match r {
                Ok(resp) => type_ != CoapMessageType::Rst && resp@ == (ResponseV {
                    pdu: MessageView {
                        type_: type_,
                        code: CoapMessageCode::Response(code),
                        mid: None,
                        options: Seq::empty(),
                        token: None,
                        data: None,
                    },
                    content_format: None,
                    max_age: None,
                    etag: None,
                    echo: None,
                    location: None,
                    observe: None,
                }),
                Err(e) => type_ == CoapMessageType::Rst && e
                    == MessageTypeError::InvalidForMessageCode(type_),
            }),
    {
        match type_ {
            CoapMessageType::Con | CoapMessageType::Non | CoapMessageType::Ack => {},
            CoapMessageType::Rst => {
                return Err(MessageTypeError::InvalidForMessageCode(type_));
            },
        }
        Ok(
            CoapResponse {
                pdu: CoapMessage::new(type_, CoapMessageCode::Response(code)),
                content_format: None,
                max_age: None,
                etag: None,
                echo: None,
                location: None,
                observe: None,
            },
        )
    }

    /// The Max-Age option value, if one is set.
    pub fn max_age(&self) -> (r: Option<MaxAge>)
        ensures
            r == self@.max_age,
    {
        self.max_age
    }

    /// Sets or clears the Max-Age option value: the longest time the
    /// response may be cached, in seconds.
    pub fn set_max_age(&mut self, max_age: Option<MaxAge>)
        ensures
            final(self)@ == (ResponseV { max_age: max_age, ..old(self)@ }),
    {
        self.max_age = max_age
    }

    /// The Content-Format option value, if one is set.
    pub fn content_format(&self) -> (r: Option<ContentFormat>)
        ensures
            r == self@.content_format,
    {
        self.content_format
    }

    /// Sets or clears the Content-Format option value: the format of the
    /// message body.
    pub fn set_content_format(&mut self, content_format: Option<ContentFormat>)
        ensures
            final(self)@ == (ResponseV { content_format: content_format, ..old(self)@ }),
    {
        self.content_format = content_format;
    }

    /// The ETag option value, if one is set.
    pub fn etag(&self) -> (r: Option<&ETag>)
        ensures
            (match r {
                Some(b) => self@.etag == Some(b@),
                None => self@.etag is None,
            }),
    {
        self.etag.as_ref()
    }

    /// Sets or clears the ETag option value: the representation a peer can
    /// name to request or compare a specific version of the resource.
    pub fn set_etag(&mut self, etag: Option<ETag>)
        ensures
            final(self)@ == (ResponseV { etag: bytes_opt_view(etag), ..old(self)@ }),
    {
        self.etag = etag
    }

    /// The Echo option value, if one is set.
    pub fn echo(&self) -> (r: Option<&Echo>)
        ensures
            (match r {
                Some(b) => self@.echo == Some(b@),
                None => self@.echo is None,
            }),
    {
        self.echo.as_ref()
    }

    /// Sets or clears the Echo option value: a server's freshness challenge
    /// that the peer should include in its next request. The engine handles
    /// echo automatically on the send path, so this layer never re-emits it.
    pub fn set_echo(&mut self, echo: Option<Echo>)
        ensures
            final(self)@ == (ResponseV { echo: bytes_opt_view(echo), ..old(self)@ }),
    {
        self.echo = echo
    }

    /// The Observe option value, if one is set.
    pub fn observe(&self) -> (r: Option<Observe>)
        ensures
            r == self@.observe,
    {
        self.observe
    }

    /// Sets or clears the Observe option value: the sequence counter of a
    /// notification for an observed resource.
    pub fn set_observe(&mut self, observe: Option<Observe>)
        ensures
            final(self)@ == (ResponseV { observe: observe, ..old(self)@ }),
    {
        self.observe = observe;
    }

    /// The location, if one is set.
    pub fn location(&self) -> (r: Option<&CoapResponseLocation>)
        ensures
            (match r {
                Some(l) => self@.location == Some(l@),
                None => self@.location is None,
            }),
    {
        self.location.as_ref()
    }

    /// Sets the location from a URI, which must carry no scheme, host or
    /// port; passing no URI leaves the location as it was.
    pub fn set_location(&mut self, uri: Option<CoapUri>) -> (r: Result<(), OptionValueError>)
        ensures
            (match r {
                Ok(_) => (match uri {
                    Some(u) => u@.scheme is None && u@.host is None && u@.port is None
                        && final(self)@ == (ResponseV { location: Some(u@), ..old(self)@ }),
                    None => *final(self) == *old(self),
                }),
                Err(e) => e == OptionValueError::IllegalValue && *final(self) == *old(self) && (
                match uri {
                    Some(u) => u@.scheme is Some || u@.host is Some || u@.port is Some,
                    None => false,
                }),
            }),
    {
        match uri {
            Some(u) => {
                match CoapResponseLocation::new_response_location(u) {
                    Ok(l) => {
                        self.location = Some(l);
                        Ok(())
                    },
                    Err(e) => Err(e),
                }
            },
            None => Ok(()),
        }
    }
}

/// The options a response re-emits when folded back into an envelope, in
/// order: location path then query segments, max-age, content-format, etag,
/// observe. An unset field emits nothing, and echo is never re-emitted (the
/// engine handles it on the send path).
pub open spec fn spec_emitted(r: ResponseV) -> Seq<OptV> {
    (match r.location {
        Some(u) => spec_location_options(u),
        None => Seq::empty(),
    }) + (match r.max_age {
        Some(v) => seq![OptV::MaxAge(v)],
        None => Seq::empty(),
    }) + (match r.content_format {
        Some(v) => seq![OptV::ContentFormat(v)],
        None => Seq::empty(),
    }) + (match r.etag {
        Some(b) => seq![OptV::ETag(b)],
        None => Seq::empty(),
    }) + (match r.observe {
        Some(v) => seq![OptV::Observe(v)],
        None => Seq::empty(),
    })
}

/// Appends every given option to the envelope, in order.
fn append_options(pdu: &mut CoapMessage, opts: Vec<CoapOption>)
    ensures
        final(pdu)@ == (MessageView {
            options: old(pdu)@.options + opts_view(opts@),
            ..old(pdu)@
        }),
{
    let ghost all = opts_view(opts@);
    let mut opts = opts;
    proof {
        assert(opts_view(opts@) =~= all.skip(0));
        assert(pdu@.options =~= old(pdu)@.options + all.take(0));
        assert(pdu@ =~= (MessageView { options: old(pdu)@.options + all.take(0), ..old(pdu)@ }));
    }
    #[verifier::loop_isolation(false)]
    while opts.len() > 0
        invariant
            opts@.len() <= all.len(),
            opts_view(opts@) == all.skip(all.len() - opts@.len()),
            pdu@ == (MessageView {
                options: old(pdu)@.options + all.take(all.len() - opts@.len()),
                ..old(pdu)@
            }),
        decreases opts@.len(),
    {
        let ghost k = all.len() - opts@.len();
        let ghost before = opts@;
        let o = opts.remove(0);
        proof {
            assert(opts_view(before)[0] == o@);
            assert(o@ == all[k]);
            assert forall|j: int|
                0 <= j < opts@.len() implies opts_view(opts@)[j] == all.skip(k + 1)[j] by {
                assert(opts@[j] == before[j + 1]);
                assert(opts_view(before)[j + 1] == all.skip(k)[j + 1]);
            }
            assert(opts_view(opts@) =~= all.skip(k + 1));
        }
        pdu.add_option(o);
        proof {
            assert(all.take(k + 1) =~= all.take(k).push(all[k]));
            assert(pdu@.options =~= old(pdu)@.options + all.take(k + 1));
            assert(pdu@ =~= (MessageView {
                options: old(pdu)@.options + all.take(k + 1),
                ..old(pdu)@
            }));
        }
    }
    proof {
        assert(all.take(all.len() as int) =~= all);
        assert(pdu@ =~= (MessageView { options: old(pdu)@.options + all, ..old(pdu)@ }));
    }
}

/// A view-preserving copy of a byte buffer.
fn clone_bytes(v: &Vec<u8>) -> (r: Vec<u8>)
    ensures
        r@ == v@,
{
    vstd::slice::slice_to_vec(v.as_slice())
}

impl CoapResponse {
    /// Folds this response back into an envelope: the envelope's queued
    /// options, followed by the re-emitted typed fields in their fixed
    /// order.
    pub fn into_message(self) -> (m: CoapMessage)
        ensures
            m@ == (MessageView { options: self@.pdu.options + spec_emitted(self@), ..self@.pdu }),
    {
        let ghost rv = self@;
        let CoapResponse { mut pdu, content_format, max_age, etag, echo: _, location, observe } =
            self;
        match location {
            Some(loc) => {
                let opts = loc.into_options();
                append_options(&mut pdu, opts);
            },
            None => {},
        }
        match max_age {
            Some(v) => pdu.add_option(CoapOption::MaxAge(v)),
            None => {},
        }
        match content_format {
            Some(v) => pdu.add_option(CoapOption::ContentFormat(v)),
            None => {},
        }
        match etag {
            Some(b) => pdu.add_option(CoapOption::ETag(b)),
            None => {},
        }
        match observe {
            Some(v) => pdu.add_option(CoapOption::Observe(v)),
            None => {},
        }
        proof {
            assert(pdu@.options =~= rv.pdu.options + spec_emitted(rv));
            assert(pdu@ =~= (MessageView { options: rv.pdu.options + spec_emitted(rv), ..rv.pdu }));
        }
        pdu
    }

    /// Decodes an envelope into a response in a single pass over its
    /// options: options a response does not admit are rejected, options
    /// that appear at most once are rejected on repetition, location
    /// segments are gathered in order, and unrecognized options stay with
    /// the envelope uninterpreted.
    pub fn from_message(pdu: CoapMessage) -> (r: Result<CoapResponse, MessageConversionError>)
        ensures
            response_res_view(r) == spec_from_message(pdu@),
    {
        let ghost all = pdu@.options;
        let mut location_path: Option<Vec<String>> = None;
        let mut location_query: Option<Vec<String>> = None;
        let mut max_age: Option<MaxAge> = None;
        let mut etag: Option<ETag> = None;
        let mut echo: Option<Echo> = None;
        let mut observe: Option<Observe> = None;
        let mut content_format: Option<ContentFormat> = None;
        let n = pdu.options().len();
        let mut i: usize = 0;
        proof {
            assert(all.skip(0) =~= all);
        }
        #[verifier::loop_isolation(false)]
        while i < n
            invariant
                i <= n,
                n == all.len(),
                spec_classify_from(all, empty_fields()) == spec_classify_from(
                    all.skip(i as int),
                    FieldsV {
                        content_format: content_format,
                        max_age: max_age,
                        etag: bytes_opt_view(etag),
                        echo: bytes_opt_view(echo),
                        observe: observe,
                        location_path: segs_opt_view(location_path),
                        location_query: segs_opt_view(location_query),
                    },
                ),
            decreases n - i,
        {
            let ghost acc = FieldsV {
                content_format: content_format,
                max_age: max_age,
                etag: bytes_opt_view(etag),
                echo: bytes_opt_view(echo),
                observe: observe,
                location_path: segs_opt_view(location_path),
                location_query: segs_opt_view(location_query),
            };
            proof {
                lemma_classify_from_step(all, i as int, acc);
            }
            let opts_ref = pdu.options();
            let option = &opts_ref[i];
            proof {
                assert(opts_view(opts_ref@)[i as int] == opts_ref@[i as int]@);
                assert(option@ == all[i as int]);
            }
            match option {
                CoapOption::LocationPath(value) => {
                    let s = value.clone();
                    let cur = location_path.take();
                    match cur {
                        Some(mut v) => {
                            let ghost pv = segs_view(v@);
                            v.push(s);
                            proof {
                                assert(segs_view(v@) =~= pv.push(s@));
                            }
                            location_path = Some(v);
                        },
                        None => {
                            let mut v: Vec<String> = Vec::new();
                            v.push(s);
                            proof {
                                assert(segs_view(v@) =~= seq![s@]);
                            }
                            location_path = Some(v);
                        },
                    }
                },
                CoapOption::LocationQuery(value) => {
                    let s = value.clone();
                    let cur = location_query.take();
                    match cur {
                        Some(mut v) => {
                            let ghost qv = segs_view(v@);
                            v.push(s);
                            proof {
                                assert(segs_view(v@) =~= qv.push(s@));
                            }
                            location_query = Some(v);
                        },
                        None => {
                            let mut v: Vec<String> = Vec::new();
                            v.push(s);
                            proof {
                                assert(segs_view(v@) =~= seq![s@]);
                            }
                            location_query = Some(v);
                        },
                    }
                },
                CoapOption::ETag(value) => {
                    if etag.is_some() {
                        return Err(
                            MessageConversionError::NonRepeatableOptionRepeated(
                                CoapOptionType::ETag,
                            ),
                        );
                    }
                    etag = Some(clone_bytes(value));
                },
                CoapOption::MaxAge(value) => {
                    if max_age.is_some() {
                        return Err(
                            MessageConversionError::NonRepeatableOptionRepeated(
                                CoapOptionType::MaxAge,
                            ),
                        );
                    }
                    max_age = Some(*value);
                },
                CoapOption::Observe(value) => {
                    if observe.is_some() {
                        return Err(
                            MessageConversionError::NonRepeatableOptionRepeated(
                                CoapOptionType::Observe,
                            ),
                        );
                    }
                    observe = Some(*value);
                },
                CoapOption::ContentFormat(value) => {
                    if content_format.is_some() {
                        return Err(
                            MessageConversionError::NonRepeatableOptionRepeated(
                                CoapOptionType::ContentFormat,
                            ),
                        );
                    }
                    content_format = Some(*value);
                },
                CoapOption::Echo(value) => {
                    if echo.is_some() {
                        return Err(
                            MessageConversionError::NonRepeatableOptionRepeated(
                                CoapOptionType::Echo,
                            ),
                        );
                    }
                    echo = Some(clone_bytes(value));
                },
                CoapOption::IfMatch(_) => {
                    return Err(
                        MessageConversionError::InvalidOptionForMessageType(
                            CoapOptionType::IfMatch,
                        ),
                    );
                },
                CoapOption::IfNoneMatch => {
                    return Err(
                        MessageConversionError::InvalidOptionForMessageType(
                            CoapOptionType::IfNoneMatch,
                        ),
                    );
                },
                CoapOption::UriHost(_) => {
                    return Err(
                        MessageConversionError::InvalidOptionForMessageType(
                            CoapOptionType::UriHost,
                        ),
                    );
                },
                CoapOption::UriPort(_) => {
                    return Err(
                        MessageConversionError::InvalidOptionForMessageType(
                            CoapOptionType::UriPort,
                        ),
                    );
                },
                CoapOption::UriPath(_) => {
                    return Err(
                        MessageConversionError::InvalidOptionForMessageType(
                            CoapOptionType::UriPath,
                        ),
                    );
                },
                CoapOption::UriQuery(_) => {
                    return Err(
                        MessageConversionError::InvalidOptionForMessageType(
                            CoapOptionType::UriQuery,
                        ),
                    );
                },
                CoapOption::ProxyUri(_) => {
                    return Err(
                        MessageConversionError::InvalidOptionForMessageType(
                            CoapOptionType::ProxyUri,
                        ),
                    );
                },
                CoapOption::ProxyScheme(_) => {
                    return Err(
                        MessageConversionError::InvalidOptionForMessageType(
                            CoapOptionType::ProxyScheme,
                        ),
                    );
                },
                CoapOption::Accept(_) => {
                    return Err(
                        MessageConversionError::InvalidOptionForMessageType(CoapOptionType::Accept),
                    );
                },
                CoapOption::Size1(_) => {
                    return Err(
                        MessageConversionError::InvalidOptionForMessageType(CoapOptionType::Size1),
                    );
                },
                CoapOption::Block1(_) => {
                    return Err(
                        MessageConversionError::InvalidOptionForMessageType(CoapOptionType::Block1),
                    );
                },
                CoapOption::HopLimit(_) => {
                    return Err(
                        MessageConversionError::InvalidOptionForMessageType(
                            CoapOptionType::HopLimit,
                        ),
                    );
                },
                CoapOption::NoResponse(_) => {
                    return Err(
                        MessageConversionError::InvalidOptionForMessageType(
                            CoapOptionType::NoResponse,
                        ),
                    );
                },
                CoapOption::Size2(_) => {},
                CoapOption::Block2(_) => {},
                CoapOption::QBlock1(_) => {},
                CoapOption::QBlock2(_) => {},
                CoapOption::RTag(_) => {},
                CoapOption::OsCore(_) => {},
                CoapOption::Other(_, _) => {},
            }
            i = i + 1;
        }
        proof {
            assert(all.skip(n as int) =~= Seq::<OptV>::empty());
        }
        let location = if location_path.is_some() || location_query.is_some() {
            match CoapResponseLocation::new_response_location(
                CoapUri::new(None, None, None, location_path, location_query),
            ) {
                Ok(l) => Some(l),
                Err(e) => {
                    return Err(MessageConversionError::InvalidOptionValue(None, e));
                },
            }
        } else {
            None
        };
        let r = CoapResponse { pdu, content_format, max_age, etag, echo, location, observe };
        Ok(r)
    }

    /// Retags this response with another code, admitting only response
    /// codes; a request or empty code is reported as unfit for this role,
    /// leaving the response unchanged.
    pub fn try_set_code(&mut self, code: CoapMessageCode) -> (r: Result<(), MessageTypeError>)
        ensures
            (match r {
                Ok(_) => (code matches CoapMessageCode::Response(_)) && final(self)@ == (ResponseV {
                    pdu: MessageView { code: code, ..old(self)@.pdu },
                    ..old(self)@
                }),
                Err(e) => !(code matches CoapMessageCode::Response(_)) && e
                    == MessageTypeError::InvalidCodeForRole && *final(self) == *old(self),
            }),
    {
        match code {
            CoapMessageCode::Response(_) => {
                self.pdu.set_code(code);
                Ok(())
            },
            CoapMessageCode::Request(_) | CoapMessageCode::Empty => Err(
                MessageTypeError::InvalidCodeForRole,
            ),
        }
    }
}

impl CoapMessageCommon for CoapResponse {
    open spec fn msg(&self) -> MessageView {
        self@.pdu
    }

    open spec fn allows_code(&self, code: CoapMessageCode) -> bool {
        code matches CoapMessageCode::Response(_)
    }

    fn add_option(&mut self, option: CoapOption) {
        self.pdu.add_option(option);
    }

    fn clear_options(&mut self) {
        self.pdu.clear_options();
    }

    fn options(&self) -> (r: &Vec<CoapOption>) {
        self.pdu.options()
    }

    fn type_(&self) -> (r: CoapMessageType) {
        self.pdu.type_()
    }

    fn set_type_(&mut self, type_: CoapMessageType) {
        self.pdu.set_type_(type_);
    }

    fn code(&self) -> (r: CoapMessageCode) {
        self.pdu.code()
    }

    fn set_code(&mut self, code: CoapMessageCode) {
        self.pdu.set_code(code);
    }

    fn mid(&self) -> (r: Option<CoapMessageId>) {
        self.pdu.mid()
    }

    fn set_mid(&mut self, mid: Option<CoapMessageId>) {
        self.pdu.set_mid(mid);
    }

    fn data(&self) -> (r: &Option<Vec<u8>>) {
        self.pdu.data()
    }

    fn set_data(&mut self, data: Option<Vec<u8>>) {
        self.pdu.set_data(data);
    }

    fn token(&self) -> (r: &Option<Vec<u8>>) {
        self.pdu.token()
    }

    fn set_token(&mut self, token: Option<Vec<u8>>) {
        self.pdu.set_token(token);
    }
}

} // verus!
