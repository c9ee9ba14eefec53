//! The ownership gate: binds a request's resolved identity to the user that
//! the request's path names.

use vstd::prelude::*;
use crate::decimal::{parse_u32, parse_u32_spec};
use crate::error::{Error, MuxFailure};
use crate::text::same_text;

verus! {

/// The user that a request was resolved to.
pub struct Identity {
    pub id: u32,
    pub name: String,
}

/// The user a request path refers to: `None` stands for the caller itself,
/// `Some(id)` for one concrete user.
pub struct UserId(pub Option<u32>);

impl UserId {
    /// What `compare` answers for a target `target` and the caller's id `id`.
    pub open spec fn spec_compare(target: Option<u32>, id: u32) -> Option<u32> {
        match target {
            None => Some(id),
            Some(t) => if t == id { Some(id) } else { None },
        }
    }

    /// What a path segment names: the caller itself for `self`, else the
    /// user whose id the segment writes in decimal. `None` for anything else.
    pub open spec fn parsed(s: Seq<char>) -> Option<Option<u32>> {
        if s == "self"@ {
            Some(None)
        } else {
            match parse_u32_spec(s) {
                Some(id) => Some(Some(id)),
                None => None,
            }
        }
    }

    /// Reads a target from a path segment: see `parsed`. Anything else is a
    /// parse failure of the router.
    pub fn from_str(s: &str) -> (r: Result<UserId, MuxFailure>)
        ensures
            match r {
                Ok(target) => Self::parsed(s@) == Some(target.0),
                Err(failure) => Self::parsed(s@) is None && failure == MuxFailure::Parse,
            },
    {
        if same_text(s, "self") {
            return Ok(UserId(None));
        }
        match parse_u32(s) {
            Some(id) => Ok(UserId(Some(id))),
            None => Err(MuxFailure::Parse),
        }
    }

    /// Compares the target with the caller's id: the caller's id comes back
    /// when the target is the caller itself or names the same id.
    pub fn compare(&self, id: u32) -> (r: Option<u32>)
        ensures
            r == Self::spec_compare(self.0, id),
    {
        match self.0 {
            None => Some(id),
            Some(t) => if t == id { Some(id) } else { None },
        }
    }
}

/// The decision on a target: the caller's own id where the target is the
/// caller itself or names the caller's id, `Unauthorized` for any other.
pub open spec fn authorized(id: u32, target: Option<u32>) -> Result<u32, Error> {
    match target {
        None => Ok(id),
        Some(t) => if t == id {
            Ok(id)
        } else {
            Err(Error::Unauthorized)
        },
    }
}

/// Decides whether `identity` may act on the user that `target` names: see
/// `authorized`. A caller never gets at another user's resources.
pub fn authorize(identity: &Identity, target: &UserId) -> (r: Result<u32, Error>)
    ensures
        r == authorized(identity.id, target.0),
        target.0 is None ==> r == Ok::<u32, Error>(identity.id),
        r is Ok <==> (target.0 matches Some(t) ==> t == identity.id),
        r matches Ok(id) ==> id == identity.id,
        r matches Err(e) ==> e == Error::Unauthorized,
{
    match target.compare(identity.id) {
        Some(id) => Ok(id),
        None => Err(Error::Unauthorized),
    }
}

} // verus!
