//! The sender: one round trip per call, every failure folded into the reply.
//!
//! The sender itself never touches the network. It says what to post
//! ([`HTTPSender::request`]) and, given what came of the post (an
//! [`Exchange`]), writes the outcome into the call's reply
//! ([`HTTPSender::send`]). Whoever owns the connection posts in between.

use crate::api::{Error, ErrorView, PutResponse, PutResponseView};
use crate::call::Call;
use crate::codec::{decode_put_response, encode_put_request, put_request_bytes, reply_decoded};
use vstd::prelude::*;

verus! {

/// `std::io::Error`, carried through unopened by [`SendError::IoError`];
/// nothing is claimed of what it holds.
#[verifier::external_type_specification]
#[verifier::external_body]
pub struct ExIoError(std::io::Error);

/// The one status that counts as success.
pub const STATUS_OK: u16 = 200;

/// The message of a reply when no answer was obtained.
pub open spec fn request_error_text() -> Seq<char> {
    "request error"@
}

/// The message of a reply when the answer's status was not success.
pub open spec fn unexpected_code_text() -> Seq<char> {
    "unexpected response code"@
}

/// The content type that marks a body as the binary encoding.
pub open spec fn content_type_text() -> Seq<char> {
    "application/x-protobuf"@
}

/// Why a message could not be written or read.
#[derive(Debug)]
pub enum SendError {
    IoError(std::io::Error),
    WireError(String),
}

impl SendError {
    /// Whether this is a wire failure that says what went wrong.
    pub open spec fn is_wire_failure(self) -> bool {
        match self {
            SendError::WireError(text) => text@.len() > 0,
            SendError::IoError(_) => false,
        }
    }

    /// The text of a wire failure.
    pub open spec fn wire_text(self) -> Seq<char> {
        match self {
            SendError::WireError(text) => text@,
            SendError::IoError(_) => request_error_text(),
        }
    }

    /// The text to report for this failure: what a wire failure says, and the
    /// transport's fixed message for an I/O failure.
    pub fn into_text(self) -> (r: String)
        ensures
            r@ == self.wire_text(),
    {
        match self {
            SendError::WireError(text) => text,
            SendError::IoError(_) => "request error".to_owned(),
        }
    }
}

/// What came of one POST.
#[derive(Debug)]
pub enum Exchange {
    /// No answer: the connection failed, or the answer broke off.
    Failed,
    /// An answer, with its status and, for a success, its body.
    Answered { status: u16, body: Vec<u8> },
}

impl Exchange {
    /// The exchange for an answer with this status and the body that was
    /// read from it. An answer whose body broke off (`None`) counts as no
    /// answer at all.
    pub fn answered(status: u16, body: Option<Vec<u8>>) -> (r: Exchange)
        ensures
            r == match body {
                Some(bytes) => (Exchange::Answered { status, body: bytes }),
                None => Exchange::Failed,
            },
    {
        match body {
            Some(bytes) => Exchange::Answered { status, body: bytes },
            None => Exchange::Failed,
        }
    }
}

/// What to post: where, marked as what, and the bytes.
#[derive(Debug)]
pub struct Post {
    pub url: String,
    pub content_type: String,
    pub body: Vec<u8>,
}

/// The reply after an exchange: the old reply with the fixed message for no
/// answer and for a status other than success; for a success, the old reply
/// with the body merged into it or, where the body does not decode, with
/// what [`reply_decoded`] reports of that.
pub open spec fn reply_after_exchange(reply: PutResponseView, exchange: Exchange) -> PutResponseView {
    match exchange {
        Exchange::Failed => reply.with_error(request_error_text()),
        Exchange::Answered { status, body } => if status != STATUS_OK {
            reply.with_error(unexpected_code_text())
        } else {
            match reply_decoded(reply, body@) {
                Ok(merged) => merged,
                Err(text) => reply.with_error(text),
            }
        },
    }
}

/// Whether the exchange is a success whose body does not decode.
pub open spec fn is_undecodable(reply: PutResponseView, exchange: Exchange) -> bool {
    exchange matches Exchange::Answered { status, body } && status == STATUS_OK && reply_decoded(
        reply,
        body@,
    ) is Err
}

/// Whether a reply reports a failure with a message that is not empty.
pub open spec fn reports_failure(reply: PutResponseView) -> bool {
    reply.header.error matches Some(e) && e.message matches Some(text) && text.len() > 0
}

/// Writes a fresh error with this message into the reply's header, over any
/// earlier one. Nothing else in the reply changes.
pub fn set_error(reply: &mut PutResponse, text: String)
    ensures
        final(reply)@ == old(reply)@.with_error(text@),
{
    let mut error = Error::new();
    error.set_message(text);
    reply.header.set_error(error);
}

/// Whether the body of an answer with this status is to be read.
pub fn is_success(status: u16) -> (r: bool)
    ensures
        r == (status == STATUS_OK),
{
    status == STATUS_OK
}

/// A sender bound to one endpoint.
#[derive(Debug)]
pub struct HTTPSender {
    addr: String,
}

impl View for HTTPSender {
    type V = Seq<char>;

    closed spec fn view(&self) -> Seq<char> {
        self.addr@
    }
}

impl HTTPSender {
    /// A sender for the endpoint at `addr`. The address is taken as it is.
    pub fn new(addr: String) -> (r: HTTPSender)
        ensures
            r@ == addr@,
    {
        HTTPSender { addr }
    }

    /// The address that this sender posts to.
    pub fn addr(&self) -> (r: &str)
        ensures
            r@ == self@,
    {
        self.addr.as_str()
    }

    /// What to post for this call: the encoded request, to this sender's
    /// address, marked as the binary encoding. Every request can be written;
    /// the result is a `Result` so that a caller has one place to stop if the
    /// writer ever reported otherwise.
    pub fn request(&self, c: &Call) -> (r: Result<Post, SendError>)
        ensures
            r is Ok,
            r.unwrap().url@ == self@,
            r.unwrap().content_type@ == content_type_text(),
            r.unwrap().body@ == put_request_bytes(c.args@),
    {
        let body = encode_put_request(&c.args)?;
        Ok(Post { url: self.addr.clone(), content_type: "application/x-protobuf".to_owned(), body })
    }

    /// Folds the outcome of the POST into the call's reply.
    ///
    /// No answer gives the message "request error". An answer whose status
    /// is not 200 gives "unexpected response code", whatever its body holds.
    /// A body that decodes is merged into the reply. A body that does not
    /// decode leaves the reply as it was, but for an error that carries what
    /// the decoder reports, which is never empty. The request and the sender
    /// stay as they are.
    pub fn send(&mut self, c: &mut Call, exchange: Exchange)
        ensures
            final(self)@ == old(self)@,
            final(c).args == old(c).args,
            final(c).reply@ == reply_after_exchange(old(c).reply@, exchange),
            exchange is Failed ==> final(c).reply@.header.error == Some(
                ErrorView::with_message(request_error_text()),
            ),
            exchange matches Exchange::Answered { status, .. } && status != STATUS_OK
                ==> final(c).reply@.header.error == Some(
                ErrorView::with_message(unexpected_code_text()),
            ),
            is_undecodable(old(c).reply@, exchange) ==> reports_failure(final(c).reply@),
    {
        match exchange {
            Exchange::Failed => {
                set_error(&mut c.reply, "request error".to_owned());
            },
            Exchange::Answered { status, body } => {
                if !is_success(status) {
                    set_error(&mut c.reply, "unexpected response code".to_owned());
                } else {
                    match decode_put_response(&c.reply, body.as_slice()) {
                        Ok(merged) => {
                            c.reply = merged;
                        },
                        Err(failure) => {
                            set_error(&mut c.reply, failure.into_text());
                        },
                    }
                }
            },
        }
    }
}

} // verus!
