use vstd::prelude::*;

use crate::definition::TaskDefinition;

verus! {

/// A sample task definition that counts its runs.
pub struct Printer {
    counter_: u32,
}

impl Printer {
    /// How many runs have completed.
    pub closed spec fn spec_counter(&self) -> u32 {
        self.counter_
    }

    /// A printer that has not run yet.
    pub fn new() -> (r: Printer)
        ensures
            r.spec_counter() == 0,
    {
        Printer { counter_: 0 }
    }

    /// How many runs have completed.
    #[verifier::when_used_as_spec(spec_counter)]
    pub fn counter(&self) -> (r: u32)
        ensures
            r == self.spec_counter(),
    {
        self.counter_
    }
}

impl TaskDefinition for Printer {
    fn init(&mut self) -> (r: Result<(), String>)
        ensures
            r is Ok,
            final(self).spec_counter() == old(self).spec_counter(),
    {
        Ok(())
    }

    /// Counts one more run; fails, leaving the count as it was, once the count is at its
    /// largest value.
    fn run(&mut self) -> (r: Result<(), String>)
        ensures
            old(self).spec_counter() < u32::MAX ==> r is Ok && final(self).spec_counter()
                == old(self).spec_counter() + 1,
            old(self).spec_counter() == u32::MAX ==> r is Err && final(self).spec_counter()
                == old(self).spec_counter(),
    {
        if self.counter_ == u32::MAX {
            return Err(String::from_str("counter overflow"));
        }
        self.counter_ = self.counter_ + 1;
        Ok(())
    }

    fn terminate(&mut self)
        ensures
            final(self).spec_counter() == old(self).spec_counter(),
    {
    }
}

} // verus!
