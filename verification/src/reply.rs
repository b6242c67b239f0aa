//! What is sent back for a request, and what it counts for.

use vstd::prelude::*;
use vstd::utf8::encode_utf8;

verus! {

/// The request was served.
pub const OK: u16 = 200;

/// The object is larger than the server takes.
pub const BAD_REQUEST: u16 = 400;

/// As many requests are being served as the server takes at once.
pub const TOO_MANY_REQUESTS: u16 = 429;

/// Something failed that should not.
pub const INTERNAL_SERVER_ERROR: u16 = 500;

/// As many objects are held as the server takes.
pub const INSUFFICIENT_STORAGE: u16 = 507;

/// An HTTP response.
pub struct Reply {
    /// The status code.
    pub status: u16,
    /// The value of the `Content-Type` header, if the response has one.
    pub content_type: Option<String>,
    /// The body.
    pub body: Vec<u8>,
}

/// What a [`Reply`] holds.
#[verifier::ext_equal]
pub ghost struct ReplyModel {
    pub status: u16,
    pub content_type: Option<Seq<char>>,
    pub body: Seq<u8>,
}

impl View for Reply {
    type V = ReplyModel;

    open spec fn view(&self) -> ReplyModel {
        ReplyModel {
            status: self.status,
            content_type: match self.content_type {
                Some(content_type) => Some(content_type@),
                None => None,
            },
            body: self.body@,
        }
    }
}

/// A reply with a text for a body and no content type.
pub open spec fn text_reply(status: u16, text: Seq<char>) -> ReplyModel {
    ReplyModel { status, content_type: None, body: encode_utf8(text) }
}

/// A reply to a request that was served.
pub open spec fn ok_reply(content_type: Seq<char>, body: Seq<u8>) -> ReplyModel {
    ReplyModel { status: OK, content_type: Some(content_type), body }
}

impl Reply {
    /// A reply with `text` for a body and no content type.
    pub fn text(status: u16, text: &str) -> (reply: Self)
        ensures
            reply@ == text_reply(status, text@),
    {
        Reply { status, content_type: None, body: text.as_bytes_vec() }
    }

    /// A reply to a request that was served.
    pub fn ok(content_type: String, body: Vec<u8>) -> (reply: Self)
        ensures
            reply@ == ok_reply(content_type@, body@),
    {
        Reply { status: OK, content_type: Some(content_type), body }
    }
}

/// How much a request adds to the server's counters.
#[derive(Clone, Copy, Debug, PartialEq, Eq, Structural)]
pub struct Tally {
    /// Bytes taken into storage.
    pub bytes_stored: u64,
    /// Objects taken into storage.
    pub objects_stored: u64,
    /// Bytes sent to takers, those of dummy payloads among them.
    pub bytes_taken: u64,
    /// Objects handed out.
    pub objects_taken: u64,
}

/// The reply to a request, and how much the request adds to the counters.
pub struct Outcome {
    pub reply: Reply,
    pub tally: Tally,
}

/// What an [`Outcome`] holds.
#[verifier::ext_equal]
pub ghost struct OutcomeModel {
    pub reply: ReplyModel,
    pub bytes_stored: nat,
    pub objects_stored: nat,
    pub bytes_taken: nat,
    pub objects_taken: nat,
}

impl View for Outcome {
    type V = OutcomeModel;

    open spec fn view(&self) -> OutcomeModel {
        OutcomeModel {
            reply: self.reply@,
            bytes_stored: self.tally.bytes_stored as nat,
            objects_stored: self.tally.objects_stored as nat,
            bytes_taken: self.tally.bytes_taken as nat,
            objects_taken: self.tally.objects_taken as nat,
        }
    }
}

} // verus!
