//! A drop: an artwork published under a name, with the directory of its
//! files on the web server.

use vstd::prelude::*;
use crate::repository::Entity;
use crate::text::{decimal_string, signed_decimal};

verus! {

#[derive(Clone, Debug, PartialEq, Eq)]
pub struct Drop {
    id: i32,
    artwork_id: i32,
    name: String,
    dir: String,
}

pub struct DropView {
    pub id: i32,
    pub artwork_id: i32,
    pub name: Seq<char>,
    pub dir: Seq<char>,
}

impl View for Drop {
    type V = DropView;

    closed spec fn view(&self) -> DropView {
        DropView { id: self.id, artwork_id: self.artwork_id, name: self.name@, dir: self.dir@ }
    }
}

impl Drop {
    pub fn new(id: i32, artwork_id: i32, name: String, dir: String) -> (r: Drop)
        ensures
            r@ == (DropView { id, artwork_id, name: name@, dir: dir@ }),
    {
        Drop { id, artwork_id, name, dir }
    }

    pub fn id(&self) -> (r: i32)
        ensures
            r == self@.id,
    {
        self.id
    }

    pub fn artwork_id(&self) -> (r: i32)
        ensures
            r == self@.artwork_id,
    {
        self.artwork_id
    }

    pub fn name(&self) -> (r: &str)
        ensures
            r@ == self@.name,
    {
        self.name.as_str()
    }

    /// The directory of the drop's files, under the web server's root.
    pub fn dir(&self) -> (r: &str)
        ensures
            r@ == self@.dir,
    {
        self.dir.as_str()
    }
}

impl Entity for Drop {
    /// The decimal text of the drop's id.
    open spec fn key(&self) -> Seq<char> {
        signed_decimal(self@.id as int)
    }

    fn id(&self) -> (r: String) {
        decimal_string(self.id as i64)
    }
}

} // verus!
