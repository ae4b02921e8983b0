//! The record that the locks of `scenario` guard: a name that can be read and
//! replaced.

use vstd::prelude::*;

verus! {

/// A record with a name.
pub struct SomeData {
    pub name: String,
}

impl SomeData {
    /// A copy of the record's name.
    pub fn name(&self) -> (name: String)
        ensures
            name@ == self.name@,
    {
        self.name.clone()
    }

    /// Gives the record a new name and returns the one it had.
    pub fn rename(&mut self, new_name: String) -> (old_name: String)
        ensures
            final(self).name@ == new_name@,
            old_name@ == old(self).name@,
    {
        let mut swapped = new_name;
        std::mem::swap(&mut self.name, &mut swapped);
        swapped
    }
}

} // verus!
