//! The envelope that binds a request to its reply.

use crate::api::{PutRequest, PutRequestView, PutResponse, PutResponseView};
use vstd::prelude::*;

verus! {

/// One request and the reply that belongs to it. The pairing is fixed when
/// the call is made and never looked at again: there is one constructor per
/// method and no other way to build a `Call`.
#[derive(Debug, Clone)]
pub struct Call {
    pub args: PutRequest,
    pub reply: PutResponse,
}

impl Call {
    /// A Put call: a zero-valued request with a zero-valued reply. Every
    /// call made here has the same model, and each owns its own data.
    pub fn put() -> (r: Call)
        ensures
            r.args@ == PutRequestView::zero(),
            r.reply@ == PutResponseView::zero(),
    {
        let args = PutRequest::new();
        let reply = args.reply();
        Call { args, reply }
    }
}

} // verus!
