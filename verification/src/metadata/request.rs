//! Request payloads.

use crate::text::{joined, utf8_reading, utf8_text};
use vstd::prelude::*;

verus! {

/// A payload on its way to a request.
pub enum Decoded<T> {
    /// There is no payload.
    Empty,
    /// The payload cannot be read; the text says why.
    Rejected(String),
    Request(T),
}

/// The text of a payload.
pub fn payload_text(payload: Vec<u8>) -> (r: Decoded<String>)
    ensures
        match r {
            Decoded::Empty => payload@.len() == 0,
            Decoded::Rejected(e) => payload@.len() > 0 && match utf8_reading(payload@) {
                Ok(_) => false,
                Err(why) => e@ == "payload is not UTF-8: "@ + why,
            },
            Decoded::Request(t) => payload@.len() > 0 && utf8_reading(payload@) == Ok::<
                Seq<char>,
                Seq<char>,
            >(t@),
        },
{
    if payload.len() == 0 {
        return Decoded::Empty;
    }
    match utf8_text(payload) {
        Ok(t) => Decoded::Request(t),
        Err(e) => Decoded::Rejected(joined("payload is not UTF-8: ", e.as_str())),
    }
}

/// Takes in what came of parsing the text of a payload.
pub fn parsed<T>(outcome: Result<T, String>) -> (r: Decoded<T>)
    ensures
        match outcome {
            Ok(t) => r == Decoded::Request(t),
            Err(e) => r is Rejected && r->Rejected_0@ == "invalid JSON: "@ + e@,
        },
{
    match outcome {
        Ok(t) => Decoded::Request(t),
        Err(e) => Decoded::Rejected(joined("invalid JSON: ", e.as_str())),
    }
}

} // verus!
