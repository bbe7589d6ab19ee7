use vstd::prelude::*;

verus! {

/// A unit of periodic work, driven through its lifecycle by a runner:
/// `init` once, then `run` once per cycle, then `terminate` once, unless `init` failed.
pub trait TaskDefinition: 'static {
    /// One-time setup before the periodic loop begins.
    fn init(&mut self) -> Result<(), String>;

    /// One execution of the periodic work; an error ends the loop.
    fn run(&mut self) -> Result<(), String>;

    /// One-time cleanup once the loop has ended; never called after a failed `init`.
    fn terminate(&mut self);
}

} // verus!
