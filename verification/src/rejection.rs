//! Refusals: the HTTP status and the error message that a request is
//! answered with when a check fails.
use vstd::prelude::*;
use crate::text::{concat3};

verus! {

pub const BAD_REQUEST: u16 = 400;
pub const UNAUTHORIZED: u16 = 401;
pub const FORBIDDEN: u16 = 403;
pub const NOT_FOUND: u16 = 404;
pub const UNPROCESSABLE_ENTITY: u16 = 422;
pub const INTERNAL_SERVER_ERROR: u16 = 500;
pub const BAD_GATEWAY: u16 = 502;

/// A refused request: the status it is answered with and the text of the
/// `error` field of the answer.
#[derive(Debug, Clone)]
pub struct Rejection {
    pub status: u16,
    pub message: String,
}

impl View for Rejection {
    type V = (u16, Seq<char>);

    open spec fn view(&self) -> (u16, Seq<char>) {
        (self.status, self.message@)
    }
}

/// A check's outcome as status and message: `None` where the check passed.
pub open spec fn outcome(r: Option<Rejection>) -> Option<(u16, Seq<char>)> {
    match r {
        Some(x) => Some(x@),
        None => None,
    }
}

/// The refusal for an empty required field.
pub open spec fn empty_field_refusal(field: Seq<char>) -> (u16, Seq<char>) {
    (UNPROCESSABLE_ENTITY, empty_field_message(field))
}

impl Rejection {
    pub fn new(status: u16, message: &str) -> (r: Rejection)
        ensures
            r.status == status,
            r.message@ == message@,
    {
        Rejection { status, message: message.to_owned() }
    }
}

/// The message for a required field that is empty or only white space.
pub open spec fn empty_field_message(field: Seq<char>) -> Seq<char> {
    "field \""@ + field + "\" must not be empty"@
}

/// 422: the named field must not be empty.
pub fn empty_field(field: &str) -> (r: Rejection)
    ensures
        r.status == UNPROCESSABLE_ENTITY,
        r.message@ == empty_field_message(field@),
{
    Rejection { status: UNPROCESSABLE_ENTITY, message: concat3("field \"", field, "\" must not be empty") }
}

} // verus!
