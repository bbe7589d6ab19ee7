use vstd::prelude::*;

use std::sync::{Arc, Mutex};
use std::time::Duration;

use crate::definition::TaskDefinition;

verus! {

#[verifier::external_type_specification]
#[verifier::external_body]
#[verifier::reject_recursive_types(T)]
pub struct ExMutex<T: ?Sized>(Mutex<T>);

/// Relies on std::sync::Mutex::new: a new, unlocked mutex holding `t`. What it holds stays
/// out of reach of the proofs.
pub assume_specification<T>[ Mutex::<T>::new ](t: T) -> Mutex<T>;

/// A value shared between threads, one thread at a time.
pub type SafeSyncPtr<T> = Arc<Mutex<T>>;

/// Wraps `item` for shared, mutually exclusive access.
pub fn build_safe_sync_ptr<T>(item: T) -> SafeSyncPtr<T> {
    Arc::new(Mutex::new(item))
}

/// A periodic task before it is started: its period, its name, the stop flag it shares with
/// its handle, and the definition it drives.
#[derive(Debug)]
#[verifier::reject_recursive_types(T)]
pub struct Task<T> where T: TaskDefinition {
    timeout_: Duration,
    name_: String,
    stopped_requested_: SafeSyncPtr<bool>,
    task_definition_: SafeSyncPtr<T>,
}

impl<T: TaskDefinition + std::marker::Send> Task<T> {
    pub closed spec fn spec_period(&self) -> Duration {
        self.timeout_
    }

    pub closed spec fn spec_name(&self) -> String {
        self.name_
    }

    pub closed spec fn spec_stop_flag(&self) -> SafeSyncPtr<bool> {
        self.stopped_requested_
    }

    pub closed spec fn spec_definition(&self) -> SafeSyncPtr<T> {
        self.task_definition_
    }

    /// A task with the given period and name, driving `def`, with a fresh stop flag.
    pub fn new(dur: Duration, name: String, def: SafeSyncPtr<T>) -> (r: Task<T>)
        ensures
            r.spec_period() == dur,
            r.spec_name() == name,
            r.spec_definition() == def,
    {
        Task {
            timeout_: dur,
            name_: name,
            stopped_requested_: build_safe_sync_ptr(false),
            task_definition_: def,
        }
    }

    /// The time slept between two successful runs.
    #[verifier::when_used_as_spec(spec_period)]
    pub fn period(&self) -> (r: Duration)
        ensures
            r == self.spec_period(),
    {
        self.timeout_
    }

    /// The name used in diagnostics.
    pub fn name(&self) -> (r: &str)
        ensures
            r@ == self.spec_name()@,
    {
        self.name_.as_str()
    }

    /// The flag by which a stop is requested.
    pub fn stop_flag(&self) -> (r: &SafeSyncPtr<bool>)
        ensures
            *r == self.spec_stop_flag(),
    {
        &self.stopped_requested_
    }

    /// The shared definition that the task drives.
    pub fn definition(&self) -> (r: &SafeSyncPtr<T>)
        ensures
            *r == self.spec_definition(),
    {
        &self.task_definition_
    }
}

} // verus!
