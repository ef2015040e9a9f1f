//! The library's server-error value: an HTTP status paired with the message
//! shown to the caller. The only operation that can fail in this system is
//! the measurement sink's storage call, so the one constructor turns a
//! storage failure's rendered message into an internal-server-error answer.

use vstd::prelude::*;

verus! {

/// A status code and the message sent with it.
pub struct ServerError {
    pub status: u16,
    pub msg: String,
}

pub type ServerResult<T> = Result<T, ServerError>;

impl ServerError {
    pub fn status(&self) -> (s: u16)
        ensures
            s == self.status,
    {
        self.status
    }

    pub fn message(&self) -> (m: &str)
        ensures
            m@ == self.msg@,
    {
        self.msg.as_str()
    }
}

/// A storage failure, carried by its rendered message, becomes an
/// internal-server-error answer wording that message verbatim.
impl From<String> for ServerError {
    fn from(value: String) -> (r: Self) {
        ServerError { status: 500, msg: value }
    }
}

impl vstd::std_specs::convert::FromSpecImpl<String> for ServerError {
    open spec fn obeys_from_spec() -> bool {
        true
    }

    open spec fn from_spec(v: String) -> Self {
        ServerError { status: 500, msg: v }
    }
}

} // verus!
