//! A URL held by its parts.
//!
//! Parsing a string into parts is the engine's work; this type carries the
//! parts as plain values once they are known.

use vstd::prelude::*;

verus! {

/// A URL, part by part.  Parts the URL does not have are absent rather than
/// empty.
pub struct Url {
    pub scheme: String,
    pub host: Option<String>,
    pub port: Option<usize>,
    pub path: String,
    pub user: Option<String>,
    pub password: Option<String>,
}

impl Url {
    /// Constructs a new URL from its parts, with no user or password.
    pub fn new(scheme: String, host: Option<String>, port: Option<usize>, path: String) -> (r: Url)
        ensures
            r.scheme == scheme,
            r.host == host,
            r.port == port,
            r.path == path,
            r.user is None,
            r.password is None,
    {
        Url { scheme, host, port, path, user: None, password: None }
    }

    /// Gets the URL scheme.
    pub fn scheme(&self) -> (s: &String)
        ensures
            s == &self.scheme,
    {
        &self.scheme
    }

    /// Gets the URL path.
    pub fn path(&self) -> (p: &String)
        ensures
            p == &self.path,
    {
        &self.path
    }

    /// Gets the URL host.  An empty string is returned if the URL has no
    /// host.
    pub fn host(&self) -> (h: String)
        ensures
            match self.host {
                Some(s) => h == s,
                None => h@ == Seq::<char>::empty(),
            },
    {
        match &self.host {
            Some(s) => s.clone(),
            None => String::new(),
        }
    }

    /// Gets the URL user.  An empty string is returned if the URL has no
    /// user.
    pub fn user(&self) -> (u: String)
        ensures
            match self.user {
                Some(s) => u == s,
                None => u@ == Seq::<char>::empty(),
            },
    {
        match &self.user {
            Some(s) => s.clone(),
            None => String::new(),
        }
    }

    /// Gets the URL password.  An empty string is returned if the URL has no
    /// password.
    pub fn password(&self) -> (p: String)
        ensures
            match self.password {
                Some(s) => p == s,
                None => p@ == Seq::<char>::empty(),
            },
    {
        match &self.password {
            Some(s) => s.clone(),
            None => String::new(),
        }
    }

    /// Gets the URL port, if it has one.
    pub fn port(&self) -> (p: Option<usize>)
        ensures
            p == self.port,
    {
        self.port
    }
}

} // verus!
