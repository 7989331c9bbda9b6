//! Obtaining a session token from a device: the login URL that is sent to the
//! device's login endpoint, and the reading of the device's answer.
//!
//! The HTTPS round trip itself is performed by the surrounding program; it
//! reduces the answer to a [`SessionHeader`] value and hands that back here.

use vstd::prelude::*;
use vstd::string::StringExecFns;

verus! {

/// Why obtaining a session token failed.
#[derive(Debug, PartialEq, Eq, Structural)]
pub enum GetSessionIDError {
    /// The device answered, but without a session header: the credentials
    /// were not accepted.
    AuthenticationFailed,
    /// The login round trip itself failed (connection refused, timeout,
    /// TLS handshake failure, or the client could not be built).
    RequestError,
    /// The session header was present but its bytes were not valid text.
    ToStrError,
}

/// The session header of the device's answer, reduced to plain data.
pub enum SessionHeader {
    /// The answer carried no session header.
    Absent,
    /// The answer carried a session header whose bytes are not valid text.
    NotText,
    /// The answer carried a session header with this text.
    Text(String),
}

/// The login URL for a device, character for character.
///
/// The credentials go in verbatim: no percent-encoding is applied, on the
/// stated assumption that the devices reject reserved URI characters in
/// credentials anyway and are only ever addressed over a trusted local
/// network. The trailing `sesionTemp` parameter is misspelled on the wire;
/// the devices expect it exactly so.
pub open spec fn spec_login_url(
    address: Seq<char>,
    username: Seq<char>,
    password: Seq<char>,
) -> Seq<char> {
    "https://"@ + address + "/System.xml?version=1.0&action=login&userName="@ + username
        + "&password="@ + password + "&sesionTemp="@
}

/// Builds the login URL that the surrounding program sends to the device.
pub fn login_url(address: &str, username: &str, password: &str) -> (r: String)
    ensures
        r@ == spec_login_url(address@, username@, password@),
{
    let mut s = String::new();
    s.append("https://");
    s.append(address);
    s.append("/System.xml?version=1.0&action=login&userName=");
    s.append(username);
    s.append("&password=");
    s.append(password);
    s.append("&sesionTemp=");
    proof {
        assert(s@ =~= spec_login_url(address@, username@, password@));
    }
    s
}

/// Turns the session header of the device's answer into a token or a failure:
/// an absent header means the device refused the credentials, a header that
/// is not text cannot be used as a token, and any other header is the token.
pub fn session_from_header(header: SessionHeader) -> (r: Result<String, GetSessionIDError>)
    ensures
        header is Absent ==> r == Err::<String, _>(GetSessionIDError::AuthenticationFailed),
        header is NotText ==> r == Err::<String, _>(GetSessionIDError::ToStrError),
        header matches SessionHeader::Text(t) ==> r == Ok::<_, GetSessionIDError>(t),
{
    match header {
        SessionHeader::Absent => Err(GetSessionIDError::AuthenticationFailed),
        SessionHeader::NotText => Err(GetSessionIDError::ToStrError),
        SessionHeader::Text(t) => Ok(t),
    }
}

} // verus!
