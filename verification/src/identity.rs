//! Caller identities.
//!
//! The engine never verifies signatures. It is handed identities that the
//! host has already authenticated and only compares them and feeds their
//! bytes into outcome seeds.

use vstd::prelude::*;
use vstd::std_specs::cmp::PartialEqSpecImpl;

verus! {

/// An authenticated party, named by the 32 bytes of its signing key.
#[derive(Clone, Copy, Debug, Eq)]
pub struct Identity {
    pub bytes: [u8; 32],
}

impl PartialEq for Identity {
    fn eq(&self, other: &Identity) -> (r: bool) {
        let mut i: usize = 0;
        while i < 32
            invariant
                0 <= i <= 32,
                forall|k: int| 0 <= k < i ==> self.bytes[k] == other.bytes[k],
            decreases 32 - i,
        {
            if self.bytes[i] != other.bytes[i] {
                return false;
            }
            i += 1;
        }
        assert(self.bytes =~= other.bytes);
        true
    }
}

impl PartialEqSpecImpl for Identity {
    open spec fn obeys_eq_spec() -> bool {
        true
    }

    open spec fn eq_spec(&self, other: &Identity) -> bool {
        *self == *other
    }
}

impl Identity {
    /// The identity whose key is `bytes`.
    pub fn new(bytes: [u8; 32]) -> (id: Identity)
        ensures
            id.bytes == bytes,
    {
        Identity { bytes }
    }
}

/// Whether `who` occurs in `list`.
pub open spec fn is_member(list: Seq<Identity>, who: Identity) -> bool {
    exists|i: int| 0 <= i < list.len() && list[i] == who
}

/// Whether no identity occurs twice in `list`.
pub open spec fn all_distinct(list: Seq<Identity>) -> bool {
    forall|i: int, j: int| 0 <= i < j < list.len() ==> list[i] != list[j]
}

/// The position of `who` in `list`: `Some` of the lowest index that holds it,
/// `None` where no index does.
pub fn position(list: &Vec<Identity>, who: &Identity) -> (found: Option<usize>)
    ensures
        match found {
            Some(i) => {
                &&& i < list@.len()
                &&& list@[i as int] == *who
                &&& forall|k: int| 0 <= k < i ==> list@[k] != *who
            },
            None => !is_member(list@, *who),
        },
{
    let mut i: usize = 0;
    while i < list.len()
        invariant
            0 <= i <= list@.len(),
            forall|k: int| 0 <= k < i ==> list@[k] != *who,
        decreases list@.len() - i,
    {
        if list[i] == *who {
            return Some(i);
        }
        i += 1;
    }
    None
}

/// Whether no identity occurs twice in `list`.
pub fn has_no_duplicates(list: &Vec<Identity>) -> (distinct: bool)
    ensures
        distinct == all_distinct(list@),
{
    let mut j: usize = 0;
    while j < list.len()
        invariant
            0 <= j <= list@.len(),
            forall|a: int, b: int| 0 <= a < b < j ==> list@[a] != list@[b],
        decreases list@.len() - j,
    {
        let mut i: usize = 0;
        while i < j
            invariant
                0 <= i <= j < list@.len(),
                forall|a: int| 0 <= a < i ==> list@[a] != list@[j as int],
            decreases j - i,
        {
            if list[i] == list[j] {
                return false;
            }
            i += 1;
        }
        j += 1;
    }
    true
}

} // verus!
