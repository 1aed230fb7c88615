//! What holds of decoding and of a round trip, for every reply and body.

use crate::api::{ErrorView, PutResponseView, ResponseHeaderView, Timestamp};
use crate::codec::{
    error_after, error_merged, error_or_zero, failure_text, header_after, header_merged,
    reply_after, reply_decoded, reply_merged, timestamp_after, timestamp_merged,
    timestamp_or_zero, PUT_RESPONSE_HEADER, RESPONSE_HEADER_ERROR, RESPONSE_HEADER_TIMESTAMP,
};
use crate::sender::{
    is_undecodable, reply_after_exchange, reports_failure, request_error_text,
    unexpected_code_text, Exchange, STATUS_OK,
};
use crate::wire::{fields_of, FieldView, ValueView};
use vstd::prelude::*;

verus! {

/// Whether a run of fields decodes as an error does not depend on the error
/// that it is merged into.
pub proof fn lemma_error_decodes_alike(e1: ErrorView, e2: ErrorView, fields: Seq<FieldView>)
    ensures
        error_merged(e1, fields) is Ok <==> error_merged(e2, fields) is Ok,
    decreases fields.len(),
{
    if fields.len() > 0 {
        match (error_after(e1, fields[0]), error_after(e2, fields[0])) {
            (Ok(n1), Ok(n2)) => lemma_error_decodes_alike(n1, n2, fields.skip(1)),
            _ => {},
        }
    }
}

/// Whether a run of fields decodes as a timestamp does not depend on the
/// timestamp that it is merged into.
pub proof fn lemma_timestamp_decodes_alike(t1: Timestamp, t2: Timestamp, fields: Seq<FieldView>)
    ensures
        timestamp_merged(t1, fields) is Ok <==> timestamp_merged(t2, fields) is Ok,
    decreases fields.len(),
{
    if fields.len() > 0 {
        match (timestamp_after(t1, fields[0]), timestamp_after(t2, fields[0])) {
            (Ok(n1), Ok(n2)) => lemma_timestamp_decodes_alike(n1, n2, fields.skip(1)),
            _ => {},
        }
    }
}

/// Two headers that agree on whether an error is set decode the same runs of
/// fields, and agree on it afterwards too.
pub proof fn lemma_header_decodes_alike(
    h1: ResponseHeaderView,
    h2: ResponseHeaderView,
    fields: Seq<FieldView>,
)
    requires
        h1.error is Some <==> h2.error is Some,
    ensures
        header_merged(h1, fields) is Ok <==> header_merged(h2, fields) is Ok,
        match (header_merged(h1, fields), header_merged(h2, fields)) {
            (Ok(a), Ok(b)) => a.error is Some <==> b.error is Some,
            _ => true,
        },
    decreases fields.len(),
{
    if fields.len() > 0 {
        let f = fields[0];
        if let ValueView::Bytes(b) = f.value {
            if let Ok(nested) = fields_of(b) {
                if f.number == RESPONSE_HEADER_ERROR {
                    lemma_error_decodes_alike(
                        error_or_zero(h1.error),
                        error_or_zero(h2.error),
                        nested,
                    );
                } else if f.number == RESPONSE_HEADER_TIMESTAMP {
                    lemma_timestamp_decodes_alike(
                        timestamp_or_zero(h1.timestamp),
                        timestamp_or_zero(h2.timestamp),
                        nested,
                    );
                }
            }
        }
        match (header_after(h1, f), header_after(h2, f)) {
            (Ok(n1), Ok(n2)) => lemma_header_decodes_alike(n1, n2, fields.skip(1)),
            _ => {},
        }
    }
}

/// Two replies that agree on whether an error is set decode the same runs of
/// fields, and agree on it afterwards too.
pub proof fn lemma_reply_decodes_alike(
    r1: PutResponseView,
    r2: PutResponseView,
    fields: Seq<FieldView>,
)
    requires
        r1.header.error is Some <==> r2.header.error is Some,
    ensures
        reply_merged(r1, fields) is Ok <==> reply_merged(r2, fields) is Ok,
        match (reply_merged(r1, fields), reply_merged(r2, fields)) {
            (Ok(a), Ok(b)) => a.header.error is Some <==> b.header.error is Some,
            _ => true,
        },
    decreases fields.len(),
{
    if fields.len() > 0 {
        let f = fields[0];
        if f.number == PUT_RESPONSE_HEADER {
            if let ValueView::Bytes(b) = f.value {
                if let Ok(nested) = fields_of(b) {
                    lemma_header_decodes_alike(r1.header, r2.header, nested);
                }
            }
        }
        match (reply_after(r1, f), reply_after(r2, f)) {
            (Ok(n1), Ok(n2)) => lemma_reply_decodes_alike(n1, n2, fields.skip(1)),
            _ => {},
        }
    }
}

/// What is reported for a failure of the outside reader is never empty.
pub proof fn lemma_failure_text_says_something(described: Seq<char>)
    ensures
        failure_text(described).len() > 0,
{
    reveal_strlit("malformed message");
}

/// What is reported for a run of fields that does not decode as an error is
/// never empty.
pub proof fn lemma_error_failure_says_something(e: ErrorView, fields: Seq<FieldView>)
    ensures
        error_merged(e, fields) matches Err(text) ==> text.len() > 0,
    decreases fields.len(),
{
    reveal_strlit("unexpected wire type");
    reveal_strlit("invalid UTF-8 sequence");
    if fields.len() > 0 {
        if let Ok(next) = error_after(e, fields[0]) {
            lemma_error_failure_says_something(next, fields.skip(1));
        }
    }
}

/// What is reported for a run of fields that does not decode as a timestamp
/// is never empty.
pub proof fn lemma_timestamp_failure_says_something(t: Timestamp, fields: Seq<FieldView>)
    ensures
        timestamp_merged(t, fields) matches Err(text) ==> text.len() > 0,
    decreases fields.len(),
{
    reveal_strlit("unexpected wire type");
    if fields.len() > 0 {
        if let Ok(next) = timestamp_after(t, fields[0]) {
            lemma_timestamp_failure_says_something(next, fields.skip(1));
        }
    }
}

/// What is reported for a run of fields that does not decode as a reply
/// header is never empty.
pub proof fn lemma_header_failure_says_something(h: ResponseHeaderView, fields: Seq<FieldView>)
    ensures
        header_merged(h, fields) matches Err(text) ==> text.len() > 0,
    decreases fields.len(),
{
    reveal_strlit("unexpected wire type");
    if fields.len() > 0 {
        let f = fields[0];
        if let ValueView::Bytes(b) = f.value {
            match fields_of(b) {
                Ok(nested) => {
                    lemma_error_failure_says_something(error_or_zero(h.error), nested);
                    lemma_timestamp_failure_says_something(timestamp_or_zero(h.timestamp), nested);
                },
                Err(described) => lemma_failure_text_says_something(described),
            }
        }
        if let Ok(next) = header_after(h, f) {
            lemma_header_failure_says_something(next, fields.skip(1));
        }
    }
}

/// What is reported for a run of fields that does not decode as a Put reply
/// is never empty.
pub proof fn lemma_reply_failure_says_something(r: PutResponseView, fields: Seq<FieldView>)
    ensures
        reply_merged(r, fields) matches Err(text) ==> text.len() > 0,
    decreases fields.len(),
{
    reveal_strlit("unexpected wire type");
    if fields.len() > 0 {
        let f = fields[0];
        if let ValueView::Bytes(b) = f.value {
            match fields_of(b) {
                Ok(nested) => lemma_header_failure_says_something(r.header, nested),
                Err(described) => lemma_failure_text_says_something(described),
            }
        }
        if let Ok(next) = reply_after(r, f) {
            lemma_reply_failure_says_something(next, fields.skip(1));
        }
    }
}

/// A success with a well-formed body that reports no error leaves the error
/// unset: where the body, decoded on its own, holds no error, it decodes
/// into every reply without an error, and the result has none. What the
/// reply then holds is the merge of the body's fields, [`reply_decoded`].
pub proof fn lemma_clean_body_leaves_error_unset(
    reply: PutResponseView,
    status: u16,
    body: Vec<u8>,
)
    requires
        status == STATUS_OK,
        reply.header.error is None,
        reply_decoded(PutResponseView::zero(), body@) matches Ok(alone)
            && alone.header.error is None,
    ensures
        reply_decoded(reply, body@) matches Ok(merged) && merged.header.error is None
            && reply_after_exchange(reply, Exchange::Answered { status, body }) == merged,
{
    if let Ok(fields) = fields_of(body@) {
        lemma_reply_decodes_alike(PutResponseView::zero(), reply, fields);
    }
}

/// With no answer the reply holds the fixed transport message, and its
/// timestamp is the one it had.
pub proof fn lemma_no_answer_reports_request_error(reply: PutResponseView)
    ensures
        reply_after_exchange(reply, Exchange::Failed).header.error == Some(
            ErrorView::with_message(request_error_text()),
        ),
        reply_after_exchange(reply, Exchange::Failed).header.timestamp == reply.header.timestamp,
{
}

/// With a status other than success the reply holds the fixed status
/// message, whatever the body: two answers with the same status and
/// different bodies give the same reply.
pub proof fn lemma_failed_status_ignores_body(
    reply: PutResponseView,
    status: u16,
    body: Vec<u8>,
    other: Vec<u8>,
)
    requires
        status != STATUS_OK,
    ensures
        reply_after_exchange(reply, Exchange::Answered { status, body }).header.error == Some(
            ErrorView::with_message(unexpected_code_text()),
        ),
        reply_after_exchange(reply, Exchange::Answered { status, body }) == reply_after_exchange(
            reply,
            Exchange::Answered { status, body: other },
        ),
{
}

/// After a success whose body does not decode, the reply is the one it was
/// but for its error, which carries what the decoder reports; that message
/// is never empty.
pub proof fn lemma_undecodable_body_reports_failure(
    reply: PutResponseView,
    status: u16,
    body: Vec<u8>,
)
    requires
        is_undecodable(reply, Exchange::Answered { status, body }),
    ensures
        reply_decoded(reply, body@) matches Err(text) && text.len() > 0 && reply_after_exchange(
            reply,
            Exchange::Answered { status, body },
        ) == reply.with_error(text),
        reports_failure(reply_after_exchange(reply, Exchange::Answered { status, body })),
{
    match fields_of(body@) {
        Ok(fields) => lemma_reply_failure_says_something(reply, fields),
        Err(described) => lemma_failure_text_says_something(described),
    }
}

} // verus!
