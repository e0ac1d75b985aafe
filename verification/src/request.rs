//! A request as plain values, and what the status of its response decides.

use vstd::prelude::*;

verus! {

/// Why a call failed.
#[derive(Debug, Clone, Copy, PartialEq, Eq, Structural)]
pub enum Error {
    /// The request could not be built or sent, or the response could not be
    /// read.
    Transport,
    /// The server answered with this status, which is a client or a server
    /// error.
    Status(u16),
    /// The body is not JSON of the shape that the call returns.
    Decode,
}

/// What a call makes of the body of its response.
#[derive(Debug, Clone, Copy, PartialEq, Eq, Structural)]
pub enum Expect {
    /// The body is returned as text.
    Text,
    /// The body is read as JSON.
    Json,
}

/// What became of a request on the wire.
#[derive(Debug, Clone, Copy, PartialEq, Eq, Structural)]
pub enum Delivery {
    /// The request could not be built or sent, or no response came.
    Failed,
    /// A response came, with this status.
    Answered(u16),
}

/// What the transport does once the fate of a request is known.
#[derive(Debug, Clone, Copy, PartialEq, Eq, Structural)]
pub enum Step {
    /// Read the body as text and return it.
    ReadText,
    /// Read the body in full and decode it as JSON.
    ReadJson,
    /// Return this error. The body is left unread.
    Fail(Error),
}

/// A sequence of pairs of strings, as pairs of sequences of characters.
pub open spec fn pairs_view(pairs: Seq<(String, String)>) -> Seq<(Seq<char>, Seq<char>)> {
    pairs.map_values(|p: (String, String)| (p.0@, p.1@))
}

/// A request, as mathematical values.
pub struct RequestView {
    pub url: Seq<char>,
    pub header_name: Seq<char>,
    pub header_value: Seq<char>,
    pub query: Seq<(Seq<char>, Seq<char>)>,
    pub expect: Expect,
}

/// A GET request: the URL without its query, the one header that it carries,
/// the query parameters in the order in which they are sent, and what the
/// call makes of the body.
#[derive(Debug, PartialEq, Eq)]
pub struct Request {
    pub url: String,
    pub header_name: String,
    pub header_value: String,
    pub query: Vec<(String, String)>,
    pub expect: Expect,
}

impl View for Request {
    type V = RequestView;

    open spec fn view(&self) -> RequestView {
        RequestView {
            url: self.url@,
            header_name: self.header_name@,
            header_value: self.header_value@,
            query: pairs_view(self.query@),
            expect: self.expect,
        }
    }
}

/// Whether a status makes a call fail: the client errors and the server
/// errors do, and no other status.
pub open spec fn status_fails(status: u16) -> bool {
    400 <= status <= 599
}

/// What the transport does after a delivery, for a call that makes `expect`
/// of the body.
pub open spec fn step_after(expect: Expect, delivery: Delivery) -> Step {
    match delivery {
        Delivery::Failed => Step::Fail(Error::Transport),
        Delivery::Answered(status) => if status_fails(status) {
            Step::Fail(Error::Status(status))
        } else {
            match expect {
                Expect::Text => Step::ReadText,
                Expect::Json => Step::ReadJson,
            }
        },
    }
}

impl Request {
    /// Decides what follows a delivery. A failing status ends the call with
    /// that status, before anything is read of the body.
    pub fn on_delivery(&self, delivery: Delivery) -> (step: Step)
        ensures
            step == step_after(self.expect, delivery),
    {
        match delivery {
            Delivery::Failed => Step::Fail(Error::Transport),
            Delivery::Answered(status) => {
                if 400 <= status && status <= 599 {
                    Step::Fail(Error::Status(status))
                } else {
                    match self.expect {
                        Expect::Text => Step::ReadText,
                        Expect::Json => Step::ReadJson,
                    }
                }
            },
        }
    }
}

/// A failing status ends every call with that status, whatever the call
/// expects and whatever the body holds.
pub proof fn failing_status_fails_the_call(expect: Expect, status: u16)
    requires
        status_fails(status),
    ensures
        step_after(expect, Delivery::Answered(status)) == Step::Fail(Error::Status(status)),
{
}

/// A call reads the body only after a response whose status does not fail.
pub proof fn body_is_read_only_after_passing_status(expect: Expect, delivery: Delivery)
    ensures
        !(step_after(expect, delivery) is Fail) <==> (delivery is Answered && !status_fails(
            delivery->Answered_0,
        )),
{
}

} // verus!
