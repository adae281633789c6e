//! The library's own record of one stored object's metadata, as a listing
//! page reports it: every field may be absent.

use vstd::prelude::*;

verus! {

/// Metadata of one stored object as a listing call returned it: the key,
/// the last-modified time as seconds since the epoch, and the size in
/// bytes. Any field may be absent; rendering substitutes documented
/// placeholders, and the download and delete operations refuse a summary
/// without a key.
pub struct ObjectSummary {
    pub key: Option<String>,
    pub last_modified: Option<i64>,
    pub size: Option<i64>,
}

impl ObjectSummary {
    /// The key's text, if the key is present.
    pub open spec fn key_view(&self) -> Option<Seq<char>> {
        match self.key {
            Some(ref k) => Some(k@),
            None => None,
        }
    }

    pub fn new(key: Option<String>, last_modified: Option<i64>, size: Option<i64>) -> (r: Self)
        ensures
            r.key == key,
            r.last_modified == last_modified,
            r.size == size,
    {
        ObjectSummary { key, last_modified, size }
    }
}

} // verus!
