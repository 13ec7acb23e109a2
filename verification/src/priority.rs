//! Job urgency.

use core::cmp::Ordering;
use vstd::prelude::*;
use vstd::std_specs::cmp::PartialOrdSpecImpl;
use vstd::std_specs::convert::FromSpecImpl;

verus! {

/// How urgent a job is. A greater value is served first; the default is zero.
#[derive(PartialEq, Eq, Structural, Ord, Clone, Copy, Hash, Debug)]
pub struct Priority(pub i8);

impl View for Priority {
    type V = int;

    open spec fn view(&self) -> int {
        self.0 as int
    }
}

impl Priority {
    /// The priority with the given urgency.
    pub fn new(value: i8) -> (p: Priority)
        ensures
            p@ == value,
    {
        Priority(value)
    }

    /// The urgency as a machine integer.
    pub fn value(&self) -> (v: i8)
        ensures
            v == self@,
    {
        self.0
    }

    /// Whether `self` is served strictly before `other`.
    pub fn outranks(&self, other: &Priority) -> (b: bool)
        ensures
            b == (self@ > other@),
    {
        self.0 > other.0
    }
}

impl Default for Priority {
    fn default() -> (p: Priority)
        ensures
            p@ == 0,
    {
        Priority(0)
    }
}

impl From<i8> for Priority {
    fn from(value: i8) -> (p: Priority) {
        Priority(value)
    }
}

impl FromSpecImpl<i8> for Priority {
    open spec fn obeys_from_spec() -> bool {
        true
    }

    open spec fn from_spec(value: i8) -> Priority {
        Priority(value)
    }
}

impl PartialOrd for Priority {
    fn partial_cmp(&self, other: &Priority) -> (r: Option<Ordering>) {
        if self.0 < other.0 {
            Some(Ordering::Less)
        } else if self.0 > other.0 {
            Some(Ordering::Greater)
        } else {
            Some(Ordering::Equal)
        }
    }
}

impl PartialOrdSpecImpl for Priority {
    open spec fn obeys_partial_cmp_spec() -> bool {
        true
    }

    open spec fn partial_cmp_spec(&self, other: &Priority) -> Option<Ordering> {
        if self.0 < other.0 {
            Some(Ordering::Less)
        } else if self.0 > other.0 {
            Some(Ordering::Greater)
        } else {
            Some(Ordering::Equal)
        }
    }
}

} // verus!
