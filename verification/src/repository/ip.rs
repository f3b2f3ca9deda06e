//! What is recorded of a client address: when it was first and last seen,
//! and its bad attempts.

use vstd::prelude::*;
use crate::repository::Entity;

verus! {

/// The address is kept as its text; dates are microseconds since the Unix
/// epoch.
#[derive(Clone, Debug, PartialEq, Eq)]
pub struct Ip {
    addr: String,
    first_seen: i64,
    last_seen: i64,
    nb_bad_attempts: u32,
}

pub struct IpView {
    pub addr: Seq<char>,
    pub first_seen: i64,
    pub last_seen: i64,
    pub nb_bad_attempts: u32,
}

impl View for Ip {
    type V = IpView;

    closed spec fn view(&self) -> IpView {
        IpView {
            addr: self.addr@,
            first_seen: self.first_seen,
            last_seen: self.last_seen,
            nb_bad_attempts: self.nb_bad_attempts,
        }
    }
}

impl Ip {
    pub fn new(addr: String, first_seen: i64, last_seen: i64, nb_bad_attempts: u32) -> (r: Ip)
        ensures
            r@ == (IpView { addr: addr@, first_seen, last_seen, nb_bad_attempts }),
    {
        Ip { addr, first_seen, last_seen, nb_bad_attempts }
    }

    pub fn addr(&self) -> (r: &str)
        ensures
            r@ == self@.addr,
    {
        self.addr.as_str()
    }

    pub fn first_seen(&self) -> (r: i64)
        ensures
            r == self@.first_seen,
    {
        self.first_seen
    }

    pub fn last_seen(&self) -> (r: i64)
        ensures
            r == self@.last_seen,
    {
        self.last_seen
    }

    pub fn nb_bad_attempts(&self) -> (r: &u32)
        ensures
            *r == self@.nb_bad_attempts,
    {
        &self.nb_bad_attempts
    }
}

impl Entity for Ip {
    /// The address's text.
    open spec fn key(&self) -> Seq<char> {
        self@.addr
    }

    fn id(&self) -> (r: String) {
        self.addr.clone()
    }
}

} // verus!
