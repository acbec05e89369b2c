use vstd::prelude::*;

verus! {

/// Immutable username/password pair handed to the login endpoint.
#[derive(Debug, Clone)]
pub struct Credentials {
    pub username: String,
    pub password: String,
}

impl Credentials {
    pub fn new(username: &str, password: &str) -> (r: Credentials)
        ensures
            r.username@ == username@,
            r.password@ == password@,
    {
        Credentials { username: username.to_owned(), password: password.to_owned() }
    }
}

} // verus!
