//! The immutable instrument definition: a named organ and its ordered
//! list of stops. It is loaded once at startup by an external loader and
//! shared read-only afterwards; nothing in this crate mutates it.

use vstd::prelude::*;

verus! {

/// One voice of the instrument: a display name and the sample files the
/// renderer plays for it, as paths relative to the instrument directory.
pub struct Stop {
    pub name: String,
    pub sample_refs: Vec<String>,
}

/// The loaded instrument definition.
pub struct Organ {
    pub name: String,
    pub stops: Vec<Stop>,
}

impl Organ {
    /// The number of stops; every valid stop index is below this.
    pub open spec fn stop_count(self) -> int {
        self.stops@.len() as int
    }

    pub fn new(name: String, stops: Vec<Stop>) -> (o: Organ)
        ensures
            o.name == name,
            o.stops == stops,
    {
        Organ { name, stops }
    }
}

} // verus!
