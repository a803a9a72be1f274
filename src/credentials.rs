//! The credentials that a request is signed with.
use vstd::prelude::*;

use crate::error::SegmentError;
use crate::event::Dict;

verus! {

/// The value under `key`; where the key occurs more than once, the last one counts.
pub open spec fn dict_get(d: Seq<(String, String)>, key: Seq<char>) -> Option<String>
    decreases d.len(),
{
    if d.len() == 0 {
        None
    } else if d.last().0@ == key {
        Some(d.last().1)
    } else {
        dict_get(d.drop_last(), key)
    }
}

/// A project id and a write key, both present.
pub struct Credentials {
    pub project_id: String,
    pub write_key: String,
}

/// The credentials held in `d`, or the first of the two keys that it lacks.
pub open spec fn credentials_of(d: Seq<(String, String)>) -> Result<Credentials, SegmentError> {
    match dict_get(d, "segment_project_id"@) {
        None => Err(SegmentError::MissingProjectId),
        Some(project_id) => match dict_get(d, "segment_write_key"@) {
            None => Err(SegmentError::MissingWriteKey),
            Some(write_key) => Ok(Credentials { project_id, write_key }),
        },
    }
}

/// Looks up `key` in `d`.
pub fn lookup(d: &Dict, key: &str) -> (r: Option<String>)
    ensures
        r == dict_get(d@, key@),
{
    let wanted = String::from_str(key);
    let mut found: Option<String> = None;
    let mut i: usize = 0;
    while i < d.len()
        invariant
            i <= d.len(),
            wanted@ == key@,
            found == dict_get(d@.subrange(0, i as int), key@),
        decreases d.len() - i,
    {
        let ghost next = d@.subrange(0, i + 1);
        proof {
            assert(next.drop_last() =~= d@.subrange(0, i as int));
        }
        if d[i].0 == wanted {
            found = Some(d[i].1.clone());
        }
        i = i + 1;
    }
    assert(d@.subrange(0, d.len() as int) =~= d@);
    found
}

impl Credentials {
    /// Reads the project id and the write key from `d`; the project id is
    /// checked first.
    pub fn from_dict(d: &Dict) -> (r: Result<Credentials, SegmentError>)
        ensures
            r == credentials_of(d@),
    {
        let project_id = match lookup(d, "segment_project_id") {
            Some(p) => p,
            None => return Err(SegmentError::MissingProjectId),
        };
        let write_key = match lookup(d, "segment_write_key") {
            Some(w) => w,
            None => return Err(SegmentError::MissingWriteKey),
        };
        Ok(Credentials { project_id, write_key })
    }

    pub fn project_id(&self) -> (r: &str)
        ensures
            r@ == self.project_id@,
    {
        self.project_id.as_str()
    }

    pub fn write_key(&self) -> (r: &str)
        ensures
            r@ == self.write_key@,
    {
        self.write_key.as_str()
    }
}

} // verus!
