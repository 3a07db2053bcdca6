//! Principals: the identities that own a ledger or operate on it.

use vstd::prelude::*;
use vstd::std_specs::cmp::PartialEqSpecImpl;

verus! {

/// An identity that can be authenticated as the caller of an operation.
///
/// The ledger only ever compares principals for equality. A principal is
/// therefore nothing more than the bytes of its canonical identifier, and
/// two principals are the same exactly when those bytes agree.
#[derive(Debug)]
pub struct Principal {
    id: Vec<u8>,
}

impl View for Principal {
    type V = Seq<u8>;

    closed spec fn view(&self) -> Seq<u8> {
        self.id@
    }
}

impl Principal {
    /// The principal whose canonical identifier is `id`.
    pub fn new(id: Vec<u8>) -> (p: Principal)
        ensures
            p@ == id@,
    {
        Principal { id }
    }

    /// The canonical identifier of this principal.
    pub fn as_bytes(&self) -> (bytes: &Vec<u8>)
        ensures
            bytes@ == self@,
    {
        &self.id
    }

    /// Whether `self` and `other` name the same identity.
    pub fn same_as(&self, other: &Principal) -> (same: bool)
        ensures
            same == (self@ == other@),
    {
        if self.id.len() != other.id.len() {
            return false;
        }
        let n: usize = self.id.len();
        let mut i: usize = 0;
        while i < n
            invariant
                n == self.id.len(),
                n == other.id.len(),
                i <= n,
                forall|k: int| 0 <= k < i ==> self.id@[k] == other.id@[k],
            decreases n - i,
        {
            if self.id[i] != other.id[i] {
                return false;
            }
            i += 1;
        }
        assert(self.id@ =~= other.id@);
        true
    }
}

impl Clone for Principal {
    fn clone(&self) -> (copy: Principal)
        ensures
            copy@ == self@,
    {
        let id = self.id.clone();
        assert(id@ =~= self.id@);
        Principal { id }
    }
}

impl PartialEq for Principal {
    fn eq(&self, other: &Principal) -> (same: bool) {
        self.same_as(other)
    }
}

impl Eq for Principal {}

impl PartialEqSpecImpl for Principal {
    open spec fn obeys_eq_spec() -> bool {
        true
    }

    open spec fn eq_spec(&self, other: &Principal) -> bool {
        self@ == other@
    }
}

} // verus!
