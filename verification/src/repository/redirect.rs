//! A redirect: a named link attached to a drop.

use vstd::prelude::*;
use crate::repository::Entity;
use crate::text::{decimal_string, signed_decimal};

verus! {

/// Dates are microseconds since the Unix epoch (UTC).
#[derive(Clone, Debug, PartialEq, Eq)]
pub struct Redirect {
    pub id: i32,
    pub drop_id: i32,
    pub create_date: i64,
    pub update_date: i64,
    pub name: String,
    pub link: String,
}

impl Redirect {
    pub fn new(id: i32, drop_id: i32, create_date: i64, update_date: i64, name: String, link: String) -> (r: Redirect)
        ensures
            r.id == id,
            r.drop_id == drop_id,
            r.create_date == create_date,
            r.update_date == update_date,
            r.name@ == name@,
            r.link@ == link@,
    {
        Redirect { id, drop_id, create_date, update_date, name, link }
    }

    pub fn id(&self) -> (r: i32)
        ensures
            r == self.id,
    {
        self.id
    }

    pub fn name(&self) -> (r: &str)
        ensures
            r@ == self.name@,
    {
        self.name.as_str()
    }

    pub fn link(&self) -> (r: &str)
        ensures
            r@ == self.link@,
    {
        self.link.as_str()
    }
}

impl Entity for Redirect {
    /// The decimal text of the redirect's id.
    open spec fn key(&self) -> Seq<char> {
        signed_decimal(self.id as int)
    }

    fn id(&self) -> (r: String) {
        decimal_string(self.id as i64)
    }
}

} // verus!
