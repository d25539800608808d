use vstd::prelude::*;

verus! {

/// The credentials of the account whose units are read.
#[derive(Debug, Clone, PartialEq, Eq)]
pub struct Config {
    pub username: String,
    pub password: String,
}

} // verus!
