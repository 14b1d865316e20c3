//! Offering the names of collections while the user types.

use vstd::prelude::*;

verus! {

/// The flag whose value is the name of a collection.
pub const COLLECTION_FLAG: &'static str = "collection";

/// Whether the names of the current database's collections are to be
/// offered for the value of `flag`: for the flag that names a collection,
/// and for no other.
pub fn offers_collections(flag: &str) -> (r: bool)
    ensures
        r == (flag@ == COLLECTION_FLAG@),
{
    flag.to_owned() == COLLECTION_FLAG.to_owned()
}

} // verus!
