//! Framing: deciding what the bytes gathered so far on a connection hold.
//!
//! The wire grammar itself is the parser crate's business; this module gives
//! its verdict a name over the byte sequence and reduces the one message kind
//! this intermediary acts on — a request — to plain values: the value of its
//! sequence-number header and the path segments of its target URI.

use vstd::prelude::*;

verus! {

/// Outcome of one framing attempt on the bytes gathered so far.
pub(crate) enum Frame {
    /// The bytes so far are a prefix of a message: more are needed.
    Incomplete,
    /// The bytes can never form a valid message.
    Malformed,
    /// A complete message, but a response or a data message rather than a
    /// request: nothing this intermediary acts on.
    NotRequest,
    /// A complete request.
    Request {
        /// The value of its sequence-number header, if it has one.
        cseq: Option<String>,
        /// The path segments of its target URI; `None` where the request has
        /// no target URI or the target's path cannot be split into segments.
        segments: Option<Vec<String>>,
    },
}

/// Whether `rtsp_types::Message::parse` reports the leading message in
/// `bytes` as incomplete: a valid message may still begin there, but more
/// bytes are needed.
pub uninterp spec fn frame_incomplete(bytes: Seq<u8>) -> bool;

/// Whether `rtsp_types::Message::parse` rejects `bytes` outright: no valid
/// message begins there, whatever bytes may follow.
pub uninterp spec fn frame_malformed(bytes: Seq<u8>) -> bool;

/// Whether `rtsp_types::Message::parse` finds a complete leading message in
/// `bytes` and that message is a request.
pub uninterp spec fn frame_request(bytes: Seq<u8>) -> bool;

/// The sequence-number header of the request that `rtsp_types::Message::parse`
/// reads from `bytes`, looked up by `rtsp_types::Request::header`; meaningful
/// only where `frame_request(bytes)` holds.
pub uninterp spec fn request_cseq(bytes: Seq<u8>) -> Option<Seq<char>>;

/// The path segments of the target URI of the request that
/// `rtsp_types::Message::parse` reads from `bytes`, as
/// `rtsp_types::Request::request_uri` and `url::Url::path_segments` give
/// them; `None` where the request has no target URI or its path cannot be
/// split. Meaningful only where `frame_request(bytes)` holds.
pub uninterp spec fn request_segments(bytes: Seq<u8>) -> Option<Seq<Seq<char>>>;

/// Relies on `rtsp_types::Message::parse` for framing, and on
/// `rtsp_types::Request::header`, `rtsp_types::Request::request_uri` and
/// `url::Url::path_segments` for reading the request's fields. All of them
/// are functions of the bytes alone, so their results bear names over the
/// byte sequence. The returned variant is the parse verdict on the leading
/// message in `bytes`; in the request case the two fields are the named
/// header value and path segments.
#[verifier::external_body]
pub(crate) fn parse_frame(bytes: &Vec<u8>) -> (r: Frame)
    ensures
        (r is Incomplete) <==> frame_incomplete(bytes@),
        (r is Malformed) <==> frame_malformed(bytes@),
        (r is Request) <==> frame_request(bytes@),
        r matches Frame::Request { cseq, segments } ==> {
            &&& cseq.deep_view() == request_cseq(bytes@)
            &&& segments.deep_view() == request_segments(bytes@)
        },
{
    match rtsp_types::Message::<Vec<u8>>::parse(bytes.as_slice()) {
        Ok((rtsp_types::Message::Request(req), _)) => Frame::Request {
            cseq: req.header(&rtsp_types::headers::CSEQ).map(|v| v.as_str().to_string()),
            segments: req
                .request_uri()
                .and_then(|u| u.path_segments())
                .map(|segs| segs.map(|s| s.to_string()).collect()),
        },
        Ok(_) => Frame::NotRequest,
        Err(rtsp_types::ParseError::Incomplete(_)) => Frame::Incomplete,
        Err(rtsp_types::ParseError::Error) => Frame::Malformed,
    }
}

} // verus!
