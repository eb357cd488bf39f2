//! How a server worker gets its application state from the JVM: the
//! worker calls `WorkerBuilder.init` on the application factory and pins
//! what it answers.
use vstd::prelude::*;

verus! {

/// How the call of `WorkerBuilder.init` turned out. An object reference is
/// the address of the JNI reference, kept as a plain integer.
#[derive(Clone, Copy, PartialEq, Eq, Debug)]
pub enum InitOutcome {
    /// The method could not be found.
    MethodMissing,
    /// The call threw or failed.
    CallFailed,
    /// The call returned this object.
    Object(usize),
    /// The call returned a value that is not an object.
    NotAnObject,
}

/// The handle that the worker's state keeps of the JVM's answer.
#[derive(Clone, Copy, PartialEq, Eq, Debug)]
pub enum WorkerHandle {
    /// Pin this object with a global reference and keep it.
    Pinned(usize),
    /// Keep no object.
    Unpinned,
}

/// Why a worker cannot be built.
#[derive(Clone, Copy, PartialEq, Eq, Debug)]
pub enum InitError {
    /// `WorkerBuilder.init` could not be found.
    MethodMissing,
    /// `WorkerBuilder.init` failed.
    CallFailed,
}

/// Decides the worker's handle from the outcome of `WorkerBuilder.init`: an
/// object is pinned, any other value leaves the handle empty, and a missing
/// method or a failed call stops the worker from being built.
pub fn worker_handle(outcome: InitOutcome) -> (r: Result<WorkerHandle, InitError>)
    ensures
        r == (match outcome {
            InitOutcome::MethodMissing => Err::<WorkerHandle, InitError>(InitError::MethodMissing),
            InitOutcome::CallFailed => Err(InitError::CallFailed),
            InitOutcome::Object(o) => Ok(WorkerHandle::Pinned(o)),
            InitOutcome::NotAnObject => Ok(WorkerHandle::Unpinned),
        }),
{
    match outcome {
        InitOutcome::MethodMissing => Err(InitError::MethodMissing),
        InitOutcome::CallFailed => Err(InitError::CallFailed),
        InitOutcome::Object(o) => Ok(WorkerHandle::Pinned(o)),
        InitOutcome::NotAnObject => Ok(WorkerHandle::Unpinned),
    }
}

} // verus!
