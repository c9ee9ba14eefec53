//! The records of the user store and the link store.

use vstd::prelude::*;
use crate::time_utils;

verus! {

pub type Time = time_utils::Time;

/// A user of the archive.
#[derive(Debug)]
pub struct User {
    pub id: u32,
    pub name: String,
    /// The encoded hash of the password, never the password.
    pub password: String,
    pub token_version: u32,
    pub created: Time,
    pub deleted: Option<Time>,
}

/// A bookmark of one user.
#[derive(Debug)]
pub struct Link {
    pub user_id: u32,
    pub url: String,
    pub created: Time,
    pub deleted: Option<Time>,
}

} // verus!
