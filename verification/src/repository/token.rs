//! An access token, issued on a tag visit.

use vstd::prelude::*;
use crate::links::{token_text, uuid_text};
use crate::repository::Entity;

verus! {

/// The token's id is a UUID (as a number); its date is in microseconds since
/// the Unix epoch.
#[derive(Clone, Copy, Debug, PartialEq, Eq)]
pub struct Token {
    id: u128,
    create_date: i64,
    tag_id: i32,
}

pub struct TokenView {
    pub id: u128,
    pub create_date: i64,
    pub tag_id: i32,
}

impl View for Token {
    type V = TokenView;

    closed spec fn view(&self) -> TokenView {
        TokenView { id: self.id, create_date: self.create_date, tag_id: self.tag_id }
    }
}

impl Token {
    /// A token for a tag, dated at the epoch (the database dates it when
    /// it is saved).
    pub fn new(id: u128, tag_id: i32) -> (r: Token)
        ensures
            r@ == (TokenView { id, create_date: 0, tag_id }),
    {
        Token { id, create_date: 0, tag_id }
    }

    /// A token as stored.
    pub fn from_record(id: u128, create_date: i64, tag_id: i32) -> (r: Token)
        ensures
            r@ == (TokenView { id, create_date, tag_id }),
    {
        Token { id, create_date, tag_id }
    }

    pub fn id(&self) -> (r: u128)
        ensures
            r == self@.id,
    {
        self.id
    }

    pub fn create_date(&self) -> (r: i64)
        ensures
            r == self@.create_date,
    {
        self.create_date
    }

    pub fn tag_id(&self) -> (r: i32)
        ensures
            r == self@.tag_id,
    {
        self.tag_id
    }
}

impl Entity for Token {
    /// The hyphenated text of the token's UUID.
    open spec fn key(&self) -> Seq<char> {
        uuid_text(self@.id)
    }

    fn id(&self) -> (r: String) {
        token_text(self.id)
    }
}

} // verus!
