//! The bearer credential that the screenshot loop presents on upload.

use vstd::prelude::*;

verus! {

/// Holds the bearer token, if the host has set one.
#[derive(Clone, Debug, PartialEq, Eq)]
pub struct AuthState {
    pub token: Option<String>,
}

impl View for AuthState {
    type V = Option<Seq<char>>;

    open spec fn view(&self) -> Option<Seq<char>> {
        match self.token {
            Some(t) => Some(t@),
            None => None,
        }
    }
}

impl AuthState {
    /// A cell that holds no token.
    pub fn new() -> (auth: AuthState)
        ensures
            auth@ == None::<Seq<char>>,
    {
        AuthState { token: None }
    }
}

} // verus!
