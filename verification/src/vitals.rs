//! The vitals record: a placeholder health record that carries only its own
//! identifier, reserved for future telemetry.

use vstd::prelude::*;

verus! {

/// A per-asset health record; identity only at present.
pub struct Vitals {
    pub id: u128,
}

impl Vitals {
    /// A record under the given identifier.
    pub fn new(id: u128) -> (r: Vitals)
        ensures
            r.id == id,
    {
        Vitals { id }
    }
}

} // verus!
