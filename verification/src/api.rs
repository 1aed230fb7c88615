//! The messages of the Put call and their headers.
//!
//! Every field is optional on the wire, so every field is an `Option` here:
//! `None` is "unset", and a zero-valued message has every field unset.

use vstd::prelude::*;

verus! {

/// The model of an optional text.
pub open spec fn text_view(text: Option<String>) -> Option<Seq<char>> {
    match text {
        Some(s) => Some(s@),
        None => None,
    }
}

/// The model of an optional run of bytes.
pub open spec fn bytes_view(bytes: Option<Vec<u8>>) -> Option<Seq<u8>> {
    match bytes {
        Some(b) => Some(b@),
        None => None,
    }
}

/// A failure reported in a reply: a flat, human-readable message.
#[derive(Debug, Clone)]
pub struct Error {
    pub message: Option<String>,
}

/// Mathematical model of an [`Error`].
pub struct ErrorView {
    pub message: Option<Seq<char>>,
}

impl ErrorView {
    /// The error with no field set.
    pub open spec fn zero() -> ErrorView {
        ErrorView { message: None }
    }

    /// The error that carries exactly `text`.
    pub open spec fn with_message(text: Seq<char>) -> ErrorView {
        ErrorView { message: Some(text) }
    }
}

impl View for Error {
    type V = ErrorView;

    open spec fn view(&self) -> ErrorView {
        ErrorView { message: text_view(self.message) }
    }
}

impl Error {
    /// An error with no message.
    pub fn new() -> (r: Error)
        ensures
            r@ == ErrorView::zero(),
    {
        Error { message: None }
    }

    /// Sets the message, replacing an earlier one.
    pub fn set_message(&mut self, text: String)
        ensures
            final(self)@ == ErrorView::with_message(text@),
    {
        self.message = Some(text);
    }

    /// A second error with the same content.
    pub fn duplicate(&self) -> (r: Error)
        ensures
            r@ == self@,
    {
        match &self.message {
            Some(text) => Error { message: Some(text.clone()) },
            None => Error { message: None },
        }
    }

    /// Whether a message is set.
    pub fn has_message(&self) -> (r: bool)
        ensures
            r == (self@.message is Some),
    {
        self.message.is_some()
    }

    /// The message, or the empty text where none is set.
    pub fn get_message(&self) -> (r: &str)
        ensures
            r@ == match self@.message {
                Some(text) => text,
                None => Seq::<char>::empty(),
            },
    {
        match &self.message {
            Some(text) => text.as_str(),
            None => {
                proof {
                    reveal_strlit("");
                }
                ""
            },
        }
    }
}

/// A point in time as the remote node reports it.
#[derive(Debug, Clone, Copy)]
pub struct Timestamp {
    pub wall_time: Option<i64>,
    pub logical: Option<i32>,
}

impl Timestamp {
    /// The timestamp with no field set.
    pub open spec fn zero() -> Timestamp {
        Timestamp { wall_time: None, logical: None }
    }

    /// A timestamp with no field set.
    pub fn new() -> (r: Timestamp)
        ensures
            r == Timestamp::zero(),
    {
        Timestamp { wall_time: None, logical: None }
    }

    /// The wall time, or 0 where it is unset.
    pub fn get_wall_time(&self) -> (r: i64)
        ensures
            r == match self.wall_time {
                Some(t) => t,
                None => 0i64,
            },
    {
        match self.wall_time {
            Some(t) => t,
            None => 0,
        }
    }

    /// The logical component, or 0 where it is unset.
    pub fn get_logical(&self) -> (r: i32)
        ensures
            r == match self.logical {
                Some(t) => t,
                None => 0i32,
            },
    {
        match self.logical {
            Some(t) => t,
            None => 0,
        }
    }
}

/// Routing and identity data that every request carries.
#[derive(Debug, Clone)]
pub struct RequestHeader {
    pub key: Option<Vec<u8>>,
    pub user: Option<String>,
    pub raft_id: Option<i64>,
}

/// Mathematical model of a [`RequestHeader`].
pub struct RequestHeaderView {
    pub key: Option<Seq<u8>>,
    pub user: Option<Seq<char>>,
    pub raft_id: Option<i64>,
}

impl RequestHeaderView {
    /// The header with no field set.
    pub open spec fn zero() -> RequestHeaderView {
        RequestHeaderView { key: None, user: None, raft_id: None }
    }
}

impl View for RequestHeader {
    type V = RequestHeaderView;

    open spec fn view(&self) -> RequestHeaderView {
        RequestHeaderView {
            key: bytes_view(self.key),
            user: text_view(self.user),
            raft_id: self.raft_id,
        }
    }
}

impl RequestHeader {
    /// A header with no field set.
    pub fn new() -> (r: RequestHeader)
        ensures
            r@ == RequestHeaderView::zero(),
    {
        RequestHeader { key: None, user: None, raft_id: None }
    }

    /// Sets the identifier of the raft group that the call addresses.
    pub fn set_raft_id(&mut self, raft_id: i64)
        ensures
            final(self)@ == (RequestHeaderView { raft_id: Some(raft_id), ..old(self)@ }),
    {
        self.raft_id = Some(raft_id);
    }

    /// Sets the acting user.
    pub fn set_user(&mut self, user: String)
        ensures
            final(self)@ == (RequestHeaderView { user: Some(user@), ..old(self)@ }),
    {
        self.user = Some(user);
    }

    /// Sets the key that the operation targets.
    pub fn set_key(&mut self, key: Vec<u8>)
        ensures
            final(self)@ == (RequestHeaderView { key: Some(key@), ..old(self)@ }),
    {
        self.key = Some(key);
    }
}

/// Timing and status data that every reply carries. An unset `error` is the
/// one sign of success.
#[derive(Debug, Clone)]
pub struct ResponseHeader {
    pub error: Option<Error>,
    pub timestamp: Option<Timestamp>,
}

/// Mathematical model of a [`ResponseHeader`].
pub struct ResponseHeaderView {
    pub error: Option<ErrorView>,
    pub timestamp: Option<Timestamp>,
}

impl ResponseHeaderView {
    /// The header with no field set.
    pub open spec fn zero() -> ResponseHeaderView {
        ResponseHeaderView { error: None, timestamp: None }
    }
}

impl View for ResponseHeader {
    type V = ResponseHeaderView;

    open spec fn view(&self) -> ResponseHeaderView {
        ResponseHeaderView {
            error: match self.error {
                Some(e) => Some(e@),
                None => None,
            },
            timestamp: self.timestamp,
        }
    }
}

impl ResponseHeader {
    /// A header with no field set.
    pub fn new() -> (r: ResponseHeader)
        ensures
            r@ == ResponseHeaderView::zero(),
    {
        ResponseHeader { error: None, timestamp: None }
    }

    /// Whether the reply reports a failure.
    pub fn has_error(&self) -> (r: bool)
        ensures
            r == (self@.error is Some),
    {
        self.error.is_some()
    }

    /// Sets the error, replacing an earlier one; the timestamp stays.
    pub fn set_error(&mut self, error: Error)
        ensures
            final(self)@ == (ResponseHeaderView { error: Some(error@), ..old(self)@ }),
    {
        self.error = Some(error);
    }

    /// The error, or the zero error where none is set.
    pub fn get_error(&self) -> (r: Error)
        ensures
            r@ == match self@.error {
                Some(e) => e,
                None => ErrorView::zero(),
            },
    {
        match &self.error {
            Some(e) => e.duplicate(),
            None => Error::new(),
        }
    }

    /// A second header with the same content.
    pub fn duplicate(&self) -> (r: ResponseHeader)
        ensures
            r@ == self@,
    {
        let error = match &self.error {
            Some(e) => Some(e.duplicate()),
            None => None,
        };
        ResponseHeader { error, timestamp: self.timestamp }
    }

    /// The timestamp, or the zero timestamp where none is set.
    pub fn get_timestamp(&self) -> (r: Timestamp)
        ensures
            r == match self.timestamp {
                Some(t) => t,
                None => Timestamp::zero(),
            },
    {
        match self.timestamp {
            Some(t) => t,
            None => Timestamp::new(),
        }
    }
}

/// The request of a Put: where to write, and what.
#[derive(Debug, Clone)]
pub struct PutRequest {
    pub header: RequestHeader,
    pub value: Option<Vec<u8>>,
}

/// Mathematical model of a [`PutRequest`].
pub struct PutRequestView {
    pub header: RequestHeaderView,
    pub value: Option<Seq<u8>>,
}

impl PutRequestView {
    /// The request with no field set.
    pub open spec fn zero() -> PutRequestView {
        PutRequestView { header: RequestHeaderView::zero(), value: None }
    }
}

impl View for PutRequest {
    type V = PutRequestView;

    open spec fn view(&self) -> PutRequestView {
        PutRequestView { header: self.header@, value: bytes_view(self.value) }
    }
}

impl PutRequest {
    /// A request with no field set.
    pub fn new() -> (r: PutRequest)
        ensures
            r@ == PutRequestView::zero(),
    {
        PutRequest { header: RequestHeader::new(), value: None }
    }

    /// The reply that belongs to this kind of request, with no field set.
    /// It does not depend on what the request holds.
    pub fn reply(&self) -> (r: PutResponse)
        ensures
            r@ == PutResponseView::zero(),
    {
        PutResponse::new()
    }

    /// The header, for the caller to fill.
    pub fn mut_header(&mut self) -> (r: &mut RequestHeader)
        ensures
            *r == old(self).header,
            *final(self) == (PutRequest { header: *final(r), ..*old(self) }),
    {
        &mut self.header
    }

    /// Sets the bytes to store under the key.
    pub fn set_value(&mut self, value: Vec<u8>)
        ensures
            final(self)@ == (PutRequestView { value: Some(value@), ..old(self)@ }),
    {
        self.value = Some(value);
    }
}

/// The reply of a Put: nothing but the header.
#[derive(Debug, Clone)]
pub struct PutResponse {
    pub header: ResponseHeader,
}

/// Mathematical model of a [`PutResponse`].
pub struct PutResponseView {
    pub header: ResponseHeaderView,
}

impl PutResponseView {
    /// The reply with no field set.
    pub open spec fn zero() -> PutResponseView {
        PutResponseView { header: ResponseHeaderView::zero() }
    }

    /// This reply with its error replaced by one that carries `text`.
    pub open spec fn with_error(self, text: Seq<char>) -> PutResponseView {
        PutResponseView {
            header: ResponseHeaderView {
                error: Some(ErrorView::with_message(text)),
                ..self.header
            },
        }
    }
}

impl View for PutResponse {
    type V = PutResponseView;

    open spec fn view(&self) -> PutResponseView {
        PutResponseView { header: self.header@ }
    }
}

impl PutResponse {
    /// A reply with no field set.
    pub fn new() -> (r: PutResponse)
        ensures
            r@ == PutResponseView::zero(),
    {
        PutResponse { header: ResponseHeader::new() }
    }

    /// A second reply with the same content.
    pub fn duplicate(&self) -> (r: PutResponse)
        ensures
            r@ == self@,
    {
        PutResponse { header: self.header.duplicate() }
    }

    /// The header, for reading.
    pub fn get_header(&self) -> (r: &ResponseHeader)
        ensures
            *r == self.header,
    {
        &self.header
    }

    /// The header, for writing.
    pub fn mut_header(&mut self) -> (r: &mut ResponseHeader)
        ensures
            *r == old(self).header,
            *final(self) == (PutResponse { header: *final(r) }),
    {
        &mut self.header
    }
}

} // verus!
