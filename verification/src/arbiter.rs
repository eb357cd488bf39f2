//! The per-worker arbiter: the event loop of one server worker, and the JVM
//! attached to its thread once the JVM hands itself over.
use vstd::prelude::*;

verus! {

/// State shared by the handlers of one application. It holds nothing yet.
#[derive(Clone, Copy, PartialEq, Eq, Debug)]
pub struct AppState {}

/// A JVM attached to a thread: the JVM handle `V` and the thread `T` that
/// attached it, which is the only thread that may detach it again.
pub struct Jvm<V, T> {
    pub vm: V,
    pub thread: T,
}

/// An arbiter of the actor runtime: the actor system `S` it belongs to, its
/// own address `A`, the thread `T` it runs on and, once attached, the JVM.
pub struct MojoArbiter<S, A, T, V> {
    state: AppState,
    system: S,
    arbiter: A,
    thread: T,
    jvm: Option<Jvm<V, T>>,
}

impl<S, A, T, V> MojoArbiter<S, A, T, V> {
    pub closed spec fn spec_system(self) -> S {
        self.system
    }

    pub closed spec fn spec_arbiter(self) -> A {
        self.arbiter
    }

    pub closed spec fn spec_thread(self) -> T {
        self.thread
    }

    pub closed spec fn spec_jvm(self) -> Option<Jvm<V, T>> {
        self.jvm
    }

    /// An arbiter of `system`, reached at `arbiter`, running on `thread`,
    /// with no JVM attached yet.
    pub fn new(state: AppState, system: S, arbiter: A, thread: T) -> (r: Self)
        ensures
            r.spec_system() == system,
            r.spec_arbiter() == arbiter,
            r.spec_thread() == thread,
            r.spec_jvm() is None,
    {
        MojoArbiter { state, system, arbiter, thread, jvm: None }
    }

    /// Prepares the arbiter for work. There is nothing to prepare yet, so the
    /// arbiter is left as it was.
    pub fn init(&mut self)
        ensures
            *final(self) == *old(self),
    {
    }

    /// Attaches `vm` to the arbiter, recording `thread` as the thread that
    /// attached it. A JVM attached before is replaced.
    pub fn attach_jvm(&mut self, vm: V, thread: T)
        ensures
            final(self).spec_jvm() == Some(Jvm { vm, thread }),
            final(self).spec_system() == old(self).spec_system(),
            final(self).spec_arbiter() == old(self).spec_arbiter(),
            final(self).spec_thread() == old(self).spec_thread(),
    {
        self.jvm = Some(Jvm { vm, thread });
    }

    /// The attached JVM, if there is one.
    pub fn jvm(&self) -> (r: Option<&Jvm<V, T>>)
        ensures
            r == match self.spec_jvm() {
                Some(j) => Some(&j),
                None => None::<&Jvm<V, T>>,
            },
    {
        match &self.jvm {
            Some(j) => Some(j),
            None => None,
        }
    }

    /// The thread the arbiter runs on.
    pub fn thread(&self) -> (r: &T)
        ensures
            *r == self.spec_thread(),
    {
        &self.thread
    }
}

} // verus!
