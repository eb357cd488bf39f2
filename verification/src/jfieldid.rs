//! Field identifiers handed out by the JVM.
use core::marker::PhantomData;
use vstd::prelude::*;

verus! {

/// A JVM field identifier tied to the lifetime of the context that produced
/// it, so that it cannot outlive that context.
///
/// The identifier is the address of the JVM's opaque `jfieldID`, kept as a
/// plain integer; the native edge converts between the pointer and it.
#[derive(Copy, Clone)]
pub struct JFieldID<'a> {
    internal: usize,
    lifetime: PhantomData<&'a ()>,
}

impl<'a> JFieldID<'a> {
    /// The raw identifier this value wraps.
    pub closed spec fn raw(self) -> usize {
        self.internal
    }

    /// Unwrap to the raw identifier.
    pub fn into_inner(self) -> (r: usize)
        ensures
            r == self.raw(),
    {
        self.internal
    }
}

impl<'a> From<usize> for JFieldID<'a> {
    /// Wraps a raw identifier; unwrapping it again gives `other` back.
    fn from(other: usize) -> (r: Self)
        ensures
            r.raw() == other,
    {
        JFieldID { internal: other, lifetime: PhantomData }
    }
}

impl<'a> vstd::std_specs::convert::FromSpecImpl<usize> for JFieldID<'a> {
    open spec fn obeys_from_spec() -> bool {
        true
    }

    closed spec fn from_spec(v: usize) -> Self {
        JFieldID { internal: v, lifetime: PhantomData }
    }
}

} // verus!
