//! What the listener answers when a request never reached a resolver.

use vstd::prelude::*;

verus! {

/// The status of a request that the schema refused.
pub const BAD_REQUEST: u16 = 400;

/// The status of every other failure.
pub const INTERNAL_SERVER_ERROR: u16 = 500;

/// The answer to a request that was turned away: a status and a text.
#[derive(Debug, PartialEq, Eq)]
pub struct ErrorReply {
    pub status: u16,
    pub body: String,
}

/// What an error reply holds.
pub struct ErrorReplyModel {
    pub status: int,
    pub body: Seq<char>,
}

impl View for ErrorReply {
    type V = ErrorReplyModel;

    open spec fn view(&self) -> ErrorReplyModel {
        ErrorReplyModel { status: self.status as int, body: self.body@ }
    }
}

/// The answer for a request that was turned away. A request that the
/// schema refused is the caller's fault and is told why. Anything else is
/// the server's, and is told no more than that.
pub open spec fn recovered(bad_request: Option<Seq<char>>) -> ErrorReplyModel {
    match bad_request {
        Some(reason) => ErrorReplyModel { status: 400, body: reason },
        None => ErrorReplyModel { status: 500, body: "INTERNAL_SERVER_ERROR"@ },
    }
}

/// The answer for a request that was turned away, `bad_request` being the
/// reason the schema gave if it was the schema that refused it.
pub fn recover(bad_request: Option<String>) -> (reply: ErrorReply)
    ensures
        reply@ == recovered(bad_request.deep_view()),
{
    match bad_request {
        Some(reason) => ErrorReply { status: BAD_REQUEST, body: reason },
        None => ErrorReply {
            status: INTERNAL_SERVER_ERROR,
            body: "INTERNAL_SERVER_ERROR".to_owned(),
        },
    }
}

} // verus!
