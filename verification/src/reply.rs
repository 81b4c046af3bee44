//! The reply that a request for a price gets.

use crate::error::AutomationError;
use crate::scrape::outcome_view;
use vstd::prelude::*;
use vstd::string::StringExecFns;

verus! {

/// Status of a reply that carries a price.
pub const STATUS_OK: u16 = 200;

/// Status of a reply to a request that failed.
pub const STATUS_INTERNAL_SERVER_ERROR: u16 = 500;

/// Body of every reply to a request that failed.
pub const ERROR_BODY: &'static str = "Internal Server Error";

/// A reply: its HTTP status, and the string that its body encodes as JSON.
#[derive(Debug, PartialEq, Eq)]
pub struct Reply {
    pub status: u16,
    pub body: String,
}

/// A reply as a plain value.
pub struct ReplyView {
    pub status: u16,
    pub body: Seq<char>,
}

impl View for Reply {
    type V = ReplyView;

    open spec fn view(&self) -> ReplyView {
        ReplyView { status: self.status, body: self.body@ }
    }
}

/// The reply owed for the outcome of a scrape.
///
/// A price is handed back as it was read, with status 200. A failure gets
/// status 500 and the same fixed body, whatever failed.
pub open spec fn reply_for(outcome: Result<Seq<char>, AutomationError>) -> ReplyView {
    match outcome {
        Ok(price) => ReplyView { status: STATUS_OK, body: price },
        Err(_) => ReplyView { status: STATUS_INTERNAL_SERVER_ERROR, body: ERROR_BODY@ },
    }
}

/// Builds the reply for the outcome of a scrape.
pub fn price_reply(outcome: Result<String, AutomationError>) -> (reply: Reply)
    ensures
        reply@ == reply_for(outcome_view(outcome)),
{
    match outcome {
        Ok(price) => Reply { status: STATUS_OK, body: price },
        Err(_) => Reply { status: STATUS_INTERNAL_SERVER_ERROR, body: String::from_str(ERROR_BODY) },
    }
}

} // verus!
