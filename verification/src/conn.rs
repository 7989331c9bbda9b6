//! The per-connection state machine.
//!
//! A connection starts reading, gathers bytes until the framing verdict is
//! in, acts on at most one request, and ends. The surrounding program owns
//! the socket and the login round trip; it feeds what it read — or the
//! outcome of the authentication — into [`Conn`] and performs the returned
//! [`Action`].

use vstd::prelude::*;
use vstd::pervasive::unreached;
use crate::frame::{
    Frame, frame_incomplete, frame_malformed, frame_request, parse_frame, request_cseq,
    request_segments,
};
use crate::redirect::{redirect_location, redirect_wire, serialize_redirect, spec_redirect_location};

verus! {

/// What the bytes gathered on a connection call for.
pub ghost enum Decision {
    /// No complete message yet: keep the bytes and keep reading.
    Wait,
    /// Close the connection without a reply: the bytes are malformed, hold a
    /// message other than a request, or hold a request without a
    /// sequence-number header or with fewer than three target path segments.
    Drop,
    /// A complete request with everything this intermediary needs:
    /// authenticate against the device at `address` with `username` and
    /// `password`, remembering `cseq` for the reply.
    Auth {
        address: Seq<char>,
        username: Seq<char>,
        password: Seq<char>,
        cseq: Seq<char>,
    },
}

/// The verdict on `bytes` as the content of a connection's buffer: wait for
/// more bytes, close without a reply, or authenticate and reply. The device
/// address and the credentials are the first three path segments of the
/// request's target URI.
pub open spec fn decide(bytes: Seq<u8>) -> Decision {
    if frame_incomplete(bytes) {
        Decision::Wait
    } else if frame_malformed(bytes) {
        Decision::Drop
    } else if !frame_request(bytes) {
        Decision::Drop
    } else {
        match (request_cseq(bytes), request_segments(bytes)) {
            (Some(cseq), Some(segs)) => if segs.len() >= 3 {
                Decision::Auth {
                    address: segs[0],
                    username: segs[1],
                    password: segs[2],
                    cseq: cseq,
                }
            } else {
                Decision::Drop
            },
            _ => Decision::Drop,
        }
    }
}

/// A connection's state, as the contracts speak of it.
pub ghost enum ConnModel {
    /// Still gathering bytes; `buf` holds every byte received so far.
    Reading { buf: Seq<u8> },
    /// A request was parsed and the authentication round trip is under way.
    Authenticating { cseq: Seq<char>, address: Seq<char> },
    /// Terminal: the connection is closed from this side.
    Done,
}

/// What the surrounding program must do next.
pub enum Action {
    /// Read more bytes from the socket.
    KeepReading,
    /// Close the connection; no reply is owed.
    Close,
    /// Authenticate against the device and hand the outcome back through
    /// [`Conn::on_auth_success`] or [`Conn::on_auth_failure`].
    Authenticate { address: String, username: String, password: String },
}

/// The spec-level counterpart of [`Action`].
pub ghost enum ActionModel {
    KeepReading,
    Close,
    Authenticate { address: Seq<char>, username: Seq<char>, password: Seq<char> },
}

impl View for Action {
    type V = ActionModel;

    open spec fn view(&self) -> ActionModel {
        match self {
            Action::KeepReading => ActionModel::KeepReading,
            Action::Close => ActionModel::Close,
            Action::Authenticate { address, username, password } => (ActionModel::Authenticate {
                address: address@,
                username: username@,
                password: password@,
            }),
        }
    }
}

/// One framing step: the state and action after a chunk arrives on a
/// connection whose buffer held `buf`.
pub open spec fn read_step(buf: Seq<u8>, chunk: Seq<u8>) -> (ConnModel, ActionModel) {
    let b = buf + chunk;
    match decide(b) {
        Decision::Wait => ((ConnModel::Reading { buf: b }), ActionModel::KeepReading),
        Decision::Drop => (ConnModel::Done, ActionModel::Close),
        Decision::Auth { address, username, password, cseq } => (
            (ConnModel::Authenticating { cseq: cseq, address: address }),
            (ActionModel::Authenticate {
                address: address,
                username: username,
                password: password,
            }),
        ),
    }
}

enum Phase {
    Reading,
    Authenticating { cseq: String, address: String },
    Done,
}

/// One connection: its buffer of bytes not yet consumed by a successful
/// parse, and where it stands in the request lifecycle.
pub struct Conn {
    buffer: Vec<u8>,
    phase: Phase,
}

impl Conn {
    /// The state of this connection as the contracts speak of it.
    pub closed spec fn model(self) -> ConnModel {
        match self.phase {
            Phase::Reading => ConnModel::Reading { buf: self.buffer@ },
            Phase::Authenticating { cseq, address } => ConnModel::Authenticating {
                cseq: cseq@,
                address: address@,
            },
            Phase::Done => ConnModel::Done,
        }
    }

    /// A fresh connection: reading, with nothing buffered.
    pub fn new() -> (c: Conn)
        ensures
            c.model() == (ConnModel::Reading { buf: Seq::<u8>::empty() }),
    {
        let c = Conn { buffer: Vec::new(), phase: Phase::Reading };
        proof {
            assert(c.buffer@ =~= Seq::<u8>::empty());
        }
        c
    }

    /// A nonzero chunk was read from the socket: buffer it, attempt to frame
    /// one message, and decide what happens next. The new state and the
    /// returned action are exactly one [`read_step`] on the old buffer.
    pub fn on_data(&mut self, chunk: &[u8]) -> (action: Action)
        requires
            old(self).model() is Reading,
        ensures
            final(self).model() == read_step(old(self).model()->Reading_buf, chunk@).0,
            action@ == read_step(old(self).model()->Reading_buf, chunk@).1,
    {
        let mut i: usize = 0;
        while i < chunk.len()
            invariant
                i <= chunk.len(),
                self.buffer@ == old(self).buffer@ + chunk@.take(i as int),
                self.phase == old(self).phase,
            decreases chunk.len() - i,
        {
            self.buffer.push(chunk[i]);
            proof {
                assert(old(self).buffer@ + chunk@.take(i as int) + seq![chunk@[i as int]]
                    =~= old(self).buffer@ + chunk@.take(i as int + 1));
            }
            i += 1;
        }
        proof {
            assert(chunk@.take(chunk@.len() as int) =~= chunk@);
            assert(self.buffer@ == old(self).buffer@ + chunk@);
        }
        let frame = parse_frame(&self.buffer);
        let ghost b: Seq<u8> = self.buffer@;
        match frame {
            Frame::Incomplete => Action::KeepReading,
            Frame::Malformed => {
                self.phase = Phase::Done;
                Action::Close
            },
            Frame::NotRequest => {
                self.phase = Phase::Done;
                Action::Close
            },
            Frame::Request { cseq, segments } => match (cseq, segments) {
                (Some(c), Some(segs)) => {
                    if segs.len() >= 3 {
                        proof {
                            assert(request_segments(b) == Some(segs.deep_view()));
                            assert(segs.deep_view().len() == segs@.len());
                            assert(segs.deep_view()[0] == segs@[0]@);
                            assert(segs.deep_view()[1] == segs@[1]@);
                            assert(segs.deep_view()[2] == segs@[2]@);
                        }
                        let address = segs[0].clone();
                        let username = segs[1].clone();
                        let password = segs[2].clone();
                        self.phase = Phase::Authenticating { cseq: c, address: address.clone() };
                        Action::Authenticate { address, username, password }
                    } else {
                        self.phase = Phase::Done;
                        Action::Close
                    }
                },
                _ => {
                    self.phase = Phase::Done;
                    Action::Close
                },
            },
        }
    }

    /// The socket yielded zero bytes with no error: a spurious empty read,
    /// not a close signal. Nothing changes; keep reading.
    pub fn on_empty_read(&self) -> (action: Action)
        ensures
            action@ == ActionModel::KeepReading,
    {
        Action::KeepReading
    }

    /// Reading from the socket failed: the connection ends with no reply.
    pub fn on_read_failed(&mut self) -> (action: Action)
        ensures
            final(self).model() == ConnModel::Done,
            action@ == ActionModel::Close,
    {
        self.phase = Phase::Done;
        Action::Close
    }

    /// The authentication round trip returned a session token: the reply is
    /// the serialized redirect response echoing the request's sequence
    /// number, with the redirect URI built from the device address and the
    /// token. The connection is done once these bytes are written.
    pub fn on_auth_success(&mut self, token: &str) -> (reply: Vec<u8>)
        requires
            old(self).model() is Authenticating,
        ensures
            final(self).model() == ConnModel::Done,
            reply@ == redirect_wire(
                old(self).model()->Authenticating_cseq,
                spec_redirect_location(old(self).model()->Authenticating_address, token@),
            ),
    {
        let (cseq, address) = match &self.phase {
            Phase::Authenticating { cseq, address } => (cseq.clone(), address.clone()),
            _ => unreached(),
        };
        let location = redirect_location(address.as_str(), token);
        let reply = serialize_redirect(cseq.as_str(), location.as_str());
        self.phase = Phase::Done;
        reply
    }

    /// The authentication round trip failed, whatever the reason: the
    /// connection ends with no reply.
    pub fn on_auth_failure(&mut self) -> (action: Action)
        requires
            old(self).model() is Authenticating,
        ensures
            final(self).model() == ConnModel::Done,
            action@ == ActionModel::Close,
    {
        self.phase = Phase::Done;
        Action::Close
    }
}

} // verus!
