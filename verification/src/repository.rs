//! The records the repositories store.

pub mod drop;
pub mod ip;
pub mod redirect;
pub mod token;

use vstd::prelude::*;

verus! {

/// A stored record, with the text of its key.
pub trait Entity {
    /// The key of the record, as text.
    spec fn key(&self) -> Seq<char>;

    /// The key of the record, as text.
    fn id(&self) -> (r: String)
        ensures
            r@ == self.key(),
    ;
}

} // verus!
