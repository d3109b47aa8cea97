use crate::error::Error;
use crate::session::{authorize, Session};
use crate::util::{bcrypt_verdict, hash_password, verify_password};
use vstd::prelude::*;
use vstd::string::*;

verus! {

/// A 128-bit identifier (a UUID), as its high and low halves.
#[derive(Clone, Copy, Debug, PartialEq, Eq, Structural)]
pub struct Id {
    pub hi: u64,
    pub lo: u64,
}

/// The role of a user.
#[derive(Clone, Copy, Debug, PartialEq, Eq, Structural)]
pub enum UserKind {
    /// A privileged user, who may see every user's private fields.
    Super,
    Normal,
}

/// A card of the catalog.
#[derive(Clone, Copy, Debug, PartialEq, Eq, Structural)]
pub struct Card {
    pub id: Id,
    /// The rating, as the IEEE-754 bits of an `f64`.
    pub rating: u64,
    /// When its owner acquired it, in microseconds since the Unix epoch.
    pub owned_at: i64,
    /// When it was made, in microseconds since the Unix epoch.
    pub created_at: i64,
    /// Its owner, if it has one.
    pub owner_id: Option<Id>,
}

/// A user as stored.
#[derive(Clone, Debug)]
pub struct User {
    pub id: Id,
    /// The bcrypt hash of the user's password.
    pub password: String,
    pub kind: UserKind,
    pub email: String,
    pub nickname: String,
    /// When the account was made, in microseconds since the Unix epoch.
    pub created_at: i64,
}

/// Whether `session` may see the private fields of what `owner` owns.
pub open spec fn may_access(session: Option<&Session>, owner: Id) -> bool {
    match session {
        Some(s) => s.user_id == owner || s.user_kind == UserKind::Super,
        None => false,
    }
}

impl User {
    pub fn id(&self) -> (r: Id)
        ensures
            r == self.id,
    {
        self.id
    }

    pub fn kind(&self) -> (r: UserKind)
        ensures
            r == self.kind,
    {
        self.kind
    }

    pub fn nickname(&self) -> (r: &str)
        ensures
            r@ == self.nickname@,
    {
        self.nickname.as_str()
    }

    pub fn created_at(&self) -> (r: i64)
        ensures
            r == self.created_at,
    {
        self.created_at
    }

    /// The e-mail address, which only the user and privileged users may see.
    pub fn email(&self, session: Option<&Session>) -> (r: Result<&str, Error>)
        ensures
            may_access(session, self.id) ==> r is Ok && r->Ok_0@ == self.email@,
            !may_access(session, self.id) ==> r == Err::<&str, Error>(Error::NotAuthorized),
    {
        if authorize(session, self.id) {
            Ok(self.email.as_str())
        } else {
            Err(Error::NotAuthorized)
        }
    }
}

/// A user to be stored: the password is already hashed.
#[derive(Clone, Debug)]
pub struct NewUser {
    pub email: String,
    pub password_hash: String,
    pub nickname: String,
}

/// What a login attempt gives, once the password has been checked against the stored hash.
pub open spec fn login_outcome(user_id: Id, verdict: Option<bool>) -> Result<Id, Error> {
    match verdict {
        Some(true) => Ok(user_id),
        Some(false) => Err(Error::WrongPassword),
        None => Err(Error::BcryptError),
    }
}

/// Decides a login attempt from the outcome of checking the password.
pub fn check_login(user_id: Id, verdict: Option<bool>) -> (r: Result<Id, Error>)
    ensures
        r == login_outcome(user_id, verdict),
{
    match verdict {
        Some(true) => Ok(user_id),
        Some(false) => Err(Error::WrongPassword),
        None => Err(Error::BcryptError),
    }
}

/// The operations that change state.
pub struct Mutation;

impl Mutation {
    /// Prepares a new account: the password is hashed (a 60-character bcrypt string of
    /// version 2b at cost 12), the rest kept as given.
    pub fn register(&self, email: String, password: String, nickname: String) -> (r: Result<
        NewUser,
        Error,
    >)
        ensures
            match r {
                Ok(u) => {
                    &&& u.email@ == email@
                    &&& u.nickname@ == nickname@
                    &&& bcrypt_verdict(password@, u.password_hash@) == Some(true)
                    &&& u.password_hash@.len() == 60
                    &&& u.password_hash@.subrange(0, 7) == "$2b$12$"@
                },
                Err(e) => e == Error::BcryptError,
            },
    {
        match hash_password(password) {
            Ok(h) => Ok(NewUser { email, password_hash: h, nickname }),
            Err(e) => Err(e),
        }
    }

    /// Checks a password against the stored user; on a match, gives the user's identifier.
    pub fn login(&self, user: &User, password: &str) -> (r: Result<Id, Error>)
        ensures
            r == login_outcome(user.id, bcrypt_verdict(password@, user.password@)),
    {
        let verdict = match verify_password(password, user.password.as_str()) {
            Ok(b) => Some(b),
            Err(_) => None,
        };
        check_login(user.id, verdict)
    }
}

/// The operations that only read.
pub struct Query;

impl Query {
    /// The version of the interface.
    pub fn api_version(&self) -> (r: String)
        ensures
            r@ == "0.1"@,
    {
        String::from_str("0.1")
    }
}

} // verus!
