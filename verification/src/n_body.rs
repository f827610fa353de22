//! The shape of an N-body problem description, as far as its consistency
//! rule reads it: the declared body count must equal the length of the
//! mass list and the length of the position list. The physical values
//! themselves (masses and coordinates) are double-precision data owned by
//! the surrounding code; the rule only compares lengths, so the library
//! holds the lengths as plain values and verifies the rule here.

use vstd::prelude::*;

verus! {

/// What the consistency rule of a problem description reads: its name,
/// the declared number of bodies, and the lengths of the mass and
/// position lists.
#[derive(Debug)]
pub struct NBody {
    pub setting_name: String,
    pub number_of_bodies: usize,
    pub mass_len: usize,
    pub position_len: usize,
}

impl NBody {
    /// A description is consistent when it declares as many bodies as it
    /// lists masses and positions for.
    pub open spec fn consistent(self) -> bool {
        self.mass_len == self.number_of_bodies && self.position_len == self.number_of_bodies
    }

    /// Validates the description: `Ok` exactly on a consistent one, and
    /// otherwise the error that names the first list whose length
    /// disagrees with the declared body count, the mass list checked
    /// first.
    pub fn check(&self) -> (r: Result<&NBody, &'static str>)
        ensures
            r is Ok <==> self.consistent(),
            r matches Ok(b) ==> b == self,
            self.mass_len != self.number_of_bodies ==> (r matches Err(m) && m@
                == "mass.len() != number_of_bodies"@),
            self.mass_len == self.number_of_bodies && self.position_len != self.number_of_bodies
                ==> (r matches Err(m) && m@ == "position.len() != number_of_bodies"@),
    {
        if self.mass_len != self.number_of_bodies {
            return Err("mass.len() != number_of_bodies");
        }
        if self.position_len != self.number_of_bodies {
            return Err("position.len() != number_of_bodies");
        }
        Ok(self)
    }
}

} // verus!
