//! The identity resolver: turns the subject of a validated claim, or the
//! user name that a delegated provider vouches for, into a user of the
//! store. Every failure to find the user looks the same to the client.

use vstd::prelude::*;
use crate::decimal::{parse_u32, parse_u32_spec};
use crate::error::Error;
use crate::gate::Identity;
use crate::models::User;

verus! {

/// The user id that a claim's subject writes, or `FailedLogin`.
pub open spec fn subject_id_spec(subject: Seq<char>) -> Result<u32, Error> {
    match parse_u32_spec(subject) {
        Some(id) => Ok(id),
        None => Err(Error::FailedLogin),
    }
}

/// Reads the user id out of a claim's subject; a subject that is no decimal
/// `u32` is a failed login.
pub fn subject_id(subject: &str) -> (r: Result<u32, Error>)
    ensures
        r == subject_id_spec(subject@),
{
    match parse_u32(subject) {
        Some(id) => Ok(id),
        None => Err(Error::FailedLogin),
    }
}

/// Whether the store's answer to a lookup says that there is no such user.
pub open spec fn is_missing(e: Error) -> bool {
    e is UserIdNotFound || e is UserNameNotFound
}

/// An optional identity as plain values.
pub open spec fn identity_view(r: Result<Identity, Error>) -> Result<(u32, Seq<char>), Error> {
    match r {
        Ok(identity) => Ok((identity.id, identity.name@)),
        Err(e) => Err(e),
    }
}

/// What the resolver makes of the store's answer to a lookup: the identity of
/// a user that is there and not deleted; `FailedLogin` for a deleted user
/// and where the store knows no such user; any other error of the store as
/// it is.
pub open spec fn resolved(found: Result<User, Error>) -> Result<(u32, Seq<char>), Error> {
    match found {
        Ok(user) => if user.deleted is Some {
            Err(Error::FailedLogin)
        } else {
            Ok((user.id, user.name@))
        },
        Err(e) => if is_missing(e) {
            Err(Error::FailedLogin)
        } else {
            Err(e)
        },
    }
}

/// Resolves the store's answer to a lookup to an identity: see `resolved`.
pub fn resolve(found: Result<User, Error>) -> (r: Result<Identity, Error>)
    ensures
        identity_view(r) == resolved(found),
{
    match found {
        Ok(user) => {
            if user.deleted.is_some() {
                Err(Error::FailedLogin)
            } else {
                Ok(Identity { id: user.id, name: user.name })
            }
        },
        Err(Error::UserIdNotFound(_)) => Err(Error::FailedLogin),
        Err(Error::UserNameNotFound(_)) => Err(Error::FailedLogin),
        Err(e) => Err(e),
    }
}

/// What to do next for a user name that a delegated provider vouches for.
pub enum Delegated {
    /// The store knows the user: the request goes on as this identity.
    Known(Identity),
    /// The store has not seen the name yet: insert a user of this name, then
    /// look the name up again.
    Register(String),
    /// The request fails with this error.
    Failed(Error),
}

/// A `Delegated` as plain values.
pub enum DelegatedView {
    Known(u32, Seq<char>),
    Register(Seq<char>),
    Failed(Error),
}

impl View for Delegated {
    type V = DelegatedView;

    open spec fn view(&self) -> DelegatedView {
        match *self {
            Delegated::Known(identity) => DelegatedView::Known(identity.id, identity.name@),
            Delegated::Register(name) => DelegatedView::Register(name@),
            Delegated::Failed(e) => DelegatedView::Failed(e),
        }
    }
}

/// The step after a lookup by name on the delegated path: a user that is
/// there and not deleted is known; a name the store has not seen is
/// registered; a deleted user is a failed login; any other error of the store
/// fails the request as it is.
pub open spec fn delegated_step(username: Seq<char>, found: Result<User, Error>) -> DelegatedView {
    match found {
        Ok(user) => if user.deleted is Some {
            DelegatedView::Failed(Error::FailedLogin)
        } else {
            DelegatedView::Known(user.id, user.name@)
        },
        Err(e) => if e is UserNameNotFound {
            DelegatedView::Register(username)
        } else {
            DelegatedView::Failed(e)
        },
    }
}

/// Decides the step after a lookup by name on the delegated path: see
/// `delegated_step`.
pub fn resolve_delegated(username: &str, found: Result<User, Error>) -> (r: Delegated)
    ensures
        r@ == delegated_step(username@, found),
{
    match found {
        Ok(user) => {
            if user.deleted.is_some() {
                Delegated::Failed(Error::FailedLogin)
            } else {
                Delegated::Known(Identity { id: user.id, name: user.name })
            }
        },
        Err(Error::UserNameNotFound(_)) => Delegated::Register(username.to_owned()),
        Err(e) => Delegated::Failed(e),
    }
}

} // verus!
