//! What a reply of the IP-echo service comes to: a greeting or an error.
use vstd::prelude::*;
use crate::decode::{decode_string_map, json_string_entries};
use crate::render::{render_greeting, greeting_text};

verus! {

/// The address the greeting is fetched from, with a plain GET.
pub const GREETING_URL: &'static str = "https://httpbin.org/ip";

/// Why no greeting could be made.
#[derive(Debug, Clone, Copy, PartialEq, Eq, Structural)]
pub enum FetchError {
    /// The request could not be sent or no reply came back.
    Network,
    /// A reply came back with a status outside 200..=299.
    HttpStatus(u16),
    /// The body is not a JSON object whose values are all strings.
    Decode,
}

/// A status in the success range 200..=299.
pub open spec fn is_success_status(status: u16) -> bool {
    200 <= status && status < 300
}

/// What a reply with `status` and `body` comes to.
pub open spec fn reply_outcome(status: u16, body: Seq<u8>) -> Result<Seq<char>, FetchError> {
    if !is_success_status(status) {
        Err(FetchError::HttpStatus(status))
    } else {
        match json_string_entries(body) {
            None => Err(FetchError::Decode),
            Some(e) => Ok(greeting_text(e)),
        }
    }
}

/// What a transfer comes to: `None` where no reply was received.
pub open spec fn transfer_outcome(reply: Option<(u16, Seq<u8>)>) -> Result<Seq<char>, FetchError> {
    match reply {
        None => Err(FetchError::Network),
        Some((status, body)) => reply_outcome(status, body),
    }
}

/// A result with its greeting seen as characters.
pub open spec fn outcome_view(r: Result<String, FetchError>) -> Result<Seq<char>, FetchError> {
    match r {
        Ok(s) => Ok(s@),
        Err(e) => Err(e),
    }
}

/// A transfer seen as plain values.
pub open spec fn transfer_view(reply: Option<(u16, Vec<u8>)>) -> Option<(u16, Seq<u8>)> {
    match reply {
        None => None,
        Some((status, body)) => Some((status, body@)),
    }
}

/// Whether `status` lies in the success range 200..=299.
pub fn status_is_success(status: u16) -> (r: bool)
    ensures
        r == is_success_status(status),
{
    200 <= status && status < 300
}

/// The greeting for a reply with `status` and `body`: an `HttpStatus` error
/// for a status outside the success range, a `Decode` error for a body that
/// is not a JSON object of strings, else the greeting for its entries.
pub fn greeting_from_reply(status: u16, body: &[u8]) -> (r: Result<String, FetchError>)
    ensures
        outcome_view(r) == reply_outcome(status, body@),
{
    if !status_is_success(status) {
        return Err(FetchError::HttpStatus(status));
    }
    match decode_string_map(body) {
        None => Err(FetchError::Decode),
        Some(entries) => Ok(render_greeting(&entries)),
    }
}

/// The greeting for a transfer: a `Network` error where no reply was
/// received, else what the reply comes to.
pub fn greeting_from_transfer(reply: Option<(u16, Vec<u8>)>) -> (r: Result<String, FetchError>)
    ensures
        outcome_view(r) == transfer_outcome(transfer_view(reply)),
{
    match reply {
        None => Err(FetchError::Network),
        Some((status, body)) => greeting_from_reply(status, body.as_slice()),
    }
}

/// Two calls on the same reply give the same result: nothing is kept from
/// one call to the next.
pub proof fn lemma_same_reply_same_result(
    status: u16,
    body: Seq<u8>,
    first: Result<String, FetchError>,
    second: Result<String, FetchError>,
)
    requires
        outcome_view(first) == reply_outcome(status, body),
        outcome_view(second) == reply_outcome(status, body),
    ensures
        outcome_view(first) == outcome_view(second),
        first is Ok <==> second is Ok,
        first is Ok ==> first->Ok_0@ == second->Ok_0@,
        first is Err ==> first->Err_0 == second->Err_0,
{
}

} // verus!
