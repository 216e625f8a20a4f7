//! The settings page of the panel.
use vstd::prelude::*;

use crate::models::Secret;

verus! {

/// What the settings page shows: the user's email, if any, their secret and
/// their name.
#[derive(Debug, Clone, PartialEq, Eq)]
pub struct IndexPage<'a> {
    pub email: Option<String>,
    pub secret: String,
    pub username: &'a str,
}

impl<'a> IndexPage<'a> {
    /// The settings page of `username`, from their stored secret and email.
    pub fn new(email: Option<String>, secret: Secret, username: &'a str) -> (p: IndexPage<'a>)
        ensures
            p.email == email,
            p.secret == secret.secret,
            p.username == username,
    {
        IndexPage { email, secret: secret.secret, username }
    }
}

} // verus!
