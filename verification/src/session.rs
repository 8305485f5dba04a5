//! The live credential set of the client.

use vstd::prelude::*;

verus! {

/// What a [`Session`] stands for in contracts.
pub struct SessionView {
    pub endpoint: Seq<char>,
    pub username: Seq<char>,
    pub password: Seq<char>,
}

/// The home server is written as the empty address.
pub open spec fn is_home(endpoint: Seq<char>) -> bool {
    endpoint.len() == 0
}

/// The session that a server gets when nothing is stored for it.
pub open spec fn blank_session(endpoint: Seq<char>) -> SessionView {
    SessionView { endpoint, username: Seq::empty(), password: Seq::empty() }
}

/// The credentials that the client currently applies.
///
/// An empty `server_endpoint` means the home server. The password is kept in
/// whatever form the client itself stores it.
#[derive(Debug)]
pub struct Session {
    pub server_endpoint: String,
    pub username: String,
    pub password: String,
}

impl View for Session {
    type V = SessionView;

    open spec fn view(&self) -> SessionView {
        SessionView {
            endpoint: self.server_endpoint@,
            username: self.username@,
            password: self.password@,
        }
    }
}

impl Session {
    /// A session made of the three given texts.
    pub fn new(server_endpoint: &str, username: &str, password: &str) -> (s: Session)
        ensures
            s@.endpoint == server_endpoint@,
            s@.username == username@,
            s@.password == password@,
    {
        Session {
            server_endpoint: server_endpoint.to_owned(),
            username: username.to_owned(),
            password: password.to_owned(),
        }
    }

    /// The session of a server for which no credentials are known.
    pub fn blank(server_endpoint: &str) -> (s: Session)
        ensures
            s@ == blank_session(server_endpoint@),
    {
        Session {
            server_endpoint: server_endpoint.to_owned(),
            username: String::new(),
            password: String::new(),
        }
    }

    /// Whether this session is on the home server.
    pub fn is_home(&self) -> (b: bool)
        ensures
            b == is_home(self@.endpoint),
    {
        self.server_endpoint.as_str().is_empty()
    }
}

} // verus!
