use vstd::prelude::*;
use vstd::string::*;

verus! {

/// What can go wrong in the library's own logic.
#[derive(Clone, Copy, Debug, PartialEq, Eq)]
pub enum Error {
    /// The request's arguments break a rule of the operation: the operation, then the rule.
    BadRequest(&'static str, &'static str),
    /// The operation exists in name only: the operation, then a detail.
    NotImplemented(&'static str, &'static str),
    /// The caller has no right to what was asked.
    NotAuthorized,
    /// The password does not match the stored hash.
    WrongPassword,
    /// Bytes that should frame a value do not.
    DecodeError,
    /// Text that should be base64 is not.
    Base64Error,
    /// The stored password hash cannot be read, or hashing failed.
    BcryptError,
    /// An instant lies outside the range of representable times.
    TimeOutOfRange,
}

/// The text shown for each error.
pub open spec fn message_of(e: Error) -> Seq<char> {
    match e {
        Error::BadRequest(m, d) => "invalid request form. method=\""@ + m@ + "\" detail=\""@ + d@
            + "\""@,
        Error::NotImplemented(m, d) => "not implemented yet. method=\""@ + m@ + "\" detail=\""@
            + d@ + "\""@,
        Error::NotAuthorized => "not authorized to do such request"@,
        Error::WrongPassword => "wrong password"@,
        Error::DecodeError => "malformed encoded value"@,
        Error::Base64Error => "malformed base64 text"@,
        Error::BcryptError => "password hashing failed"@,
        Error::TimeOutOfRange => "time out of range"@,
    }
}

fn method_detail(prefix: &str, m: &str, d: &str) -> (r: String)
    ensures
        r@ == prefix@ + m@ + "\" detail=\""@ + d@ + "\""@,
{
    let mut s = String::from_str(prefix);
    s.append(m);
    s.append("\" detail=\"");
    s.append(d);
    s.append("\"");
    s
}

impl Error {
    /// The error as text, as a user sees it.
    pub fn message(&self) -> (r: String)
        ensures
            r@ == message_of(*self),
    {
        match *self {
            Error::BadRequest(m, d) => method_detail("invalid request form. method=\"", m, d),
            Error::NotImplemented(m, d) => method_detail("not implemented yet. method=\"", m, d),
            Error::NotAuthorized => String::from_str("not authorized to do such request"),
            Error::WrongPassword => String::from_str("wrong password"),
            Error::DecodeError => String::from_str("malformed encoded value"),
            Error::Base64Error => String::from_str("malformed base64 text"),
            Error::BcryptError => String::from_str("password hashing failed"),
            Error::TimeOutOfRange => String::from_str("time out of range"),
        }
    }
}

} // verus!
