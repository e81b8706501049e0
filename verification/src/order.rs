use vstd::prelude::*;

use core::cmp::Ordering;
use vstd::std_specs::cmp::{PartialEqSpecImpl, PartialOrdSpecImpl};

use crate::status::rank;
use crate::user::User;

verus! {

/// Two users are equal for ordering when their statuses are.
impl PartialEq for User {
    fn eq(&self, other: &User) -> (r: bool) {
        self.status == other.status
    }
}

impl PartialEqSpecImpl for User {
    open spec fn obeys_eq_spec() -> bool {
        true
    }

    open spec fn eq_spec(&self, other: &User) -> bool {
        self.status == other.status
    }
}

impl Eq for User {
}

/// Users are ordered by status, in the order of the status variants.
impl PartialOrd for User {
    fn partial_cmp(&self, other: &User) -> (r: Option<Ordering>) {
        let a = self.status.rank();
        let b = other.status.rank();
        if a < b {
            Some(Ordering::Less)
        } else if a == b {
            Some(Ordering::Equal)
        } else {
            Some(Ordering::Greater)
        }
    }
}

impl PartialOrdSpecImpl for User {
    open spec fn obeys_partial_cmp_spec() -> bool {
        true
    }

    open spec fn partial_cmp_spec(&self, other: &User) -> Option<Ordering> {
        if rank(self.status) < rank(other.status) {
            Some(Ordering::Less)
        } else if rank(self.status) == rank(other.status) {
            Some(Ordering::Equal)
        } else {
            Some(Ordering::Greater)
        }
    }
}

} // verus!
