//! Reply construction: the redirect URI handed back to the client, and the
//! serialized redirect response that carries it.

use vstd::prelude::*;
use vstd::string::StringExecFns;

verus! {

/// The redirect URI placed in the reply's target-location header, character
/// for character: the device address, the session token, and the fixed query
/// parameters naming the streaming-setup action and the fixed channel.
pub open spec fn spec_redirect_location(address: Seq<char>, token: Seq<char>) -> Seq<char> {
    "rtsp://"@ + address + "/StreamingSetting?version=1.0&action=getRTSPStream&sessionID="@
        + token + "&ChannelID=1&ChannelName=Channel1"@
}

/// Builds the redirect URI for the reply.
pub fn redirect_location(address: &str, token: &str) -> (r: String)
    ensures
        r@ == spec_redirect_location(address@, token@),
{
    let mut s = String::new();
    s.append("rtsp://");
    s.append(address);
    s.append("/StreamingSetting?version=1.0&action=getRTSPStream&sessionID=");
    s.append(token);
    s.append("&ChannelID=1&ChannelName=Channel1");
    proof {
        assert(s@ =~= spec_redirect_location(address@, token@));
    }
    s
}

/// The wire bytes of the redirect response with the given sequence-number
/// and target-location header values: a protocol version 2.0 response with
/// status "Found" and exactly those two headers. The serializer writes the
/// headers from an ordered map and a write into a byte vector cannot fail,
/// so these bytes are a function of the two header values alone.
pub uninterp spec fn redirect_wire(cseq: Seq<char>, location: Seq<char>) -> Seq<u8>;

/// Relies on `rtsp_types::Response::builder`, its `header` and `empty`
/// methods, and `rtsp_types::Response::write`: together they serialize a
/// version 2.0 "Found" response carrying the two given header values, and
/// on a `Vec<u8>` sink the write cannot fail.
#[verifier::external_body]
pub(crate) fn serialize_redirect(cseq: &str, location: &str) -> (r: Vec<u8>)
    ensures
        r@ == redirect_wire(cseq@, location@),
{
    let response = rtsp_types::Response::builder(
        rtsp_types::Version::V2_0,
        rtsp_types::StatusCode::Found,
    )
        .header(rtsp_types::headers::CSEQ, cseq)
        .header(rtsp_types::headers::LOCATION, location)
        .empty();
    let mut out = Vec::new();
    let _ = response.write(&mut out);
    out
}

} // verus!
