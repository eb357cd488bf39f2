//! The application-wide registry of event-loop arbiters.
use std::sync::Arc;
use vstd::prelude::*;

verus! {

/// The arbiters started so far, one per server worker, shared with the
/// workers that started them. `A` is the handle by which an arbiter is
/// reached.
pub struct MojoApp<A> {
    loops: Vec<Arc<A>>,
}

/// The number of arbiters room is made for up front.
pub const INITIAL_CAPACITY: usize = 128;

impl<A> View for MojoApp<A> {
    type V = Seq<A>;

    /// The registered arbiters, oldest first.
    closed spec fn view(&self) -> Seq<A> {
        self.loops@.map_values(|a: Arc<A>| *a)
    }
}

impl<A> MojoApp<A> {
    /// A registry with no arbiters yet.
    pub fn new() -> (r: MojoApp<A>)
        ensures
            r@ == Seq::<A>::empty(),
    {
        let r = MojoApp { loops: Vec::with_capacity(INITIAL_CAPACITY) };
        assert(r@ =~= Seq::<A>::empty());
        r
    }

    /// Registers one more arbiter, after those registered before.
    pub fn add_arbiter(&mut self, arbiter: A)
        ensures
            final(self)@ == old(self)@.push(arbiter),
    {
        self.loops.push(Arc::new(arbiter));
        assert(self@ =~= old(self)@.push(arbiter));
    }

    /// Hands a JVM to the registered arbiters. No arbiter takes it up yet,
    /// so the registry is left as it was.
    pub fn attach_jvm<V>(&mut self, _vm: V)
        ensures
            final(self)@ == old(self)@,
    {
    }

    /// The number of registered arbiters.
    pub fn arbiter_count(&self) -> (r: usize)
        ensures
            r == self@.len(),
    {
        self.loops.len()
    }
}

/// The registry after `j` of the registrations in `states`: the first `j`
/// arbiters added, in order.
proof fn lemma_registrations_prefix<A>(states: Seq<Seq<A>>, added: Seq<A>, j: int)
    requires
        states.len() == added.len() + 1,
        states[0] == Seq::<A>::empty(),
        forall|i: int| 0 <= i < added.len() ==> #[trigger] states[i + 1] == states[i].push(added[i]),
        0 <= j <= added.len(),
    ensures
        states[j] == added.take(j),
    decreases j,
{
    if j == 0 {
        assert(added.take(0) =~= Seq::<A>::empty());
    } else {
        lemma_registrations_prefix(states, added, j - 1);
        assert(states[(j - 1) + 1] == states[j - 1].push(added[j - 1]));
        assert(added.take(j - 1).push(added[j - 1]) =~= added.take(j));
    }
}

/// Registering `k` arbiters one after another, starting from a new
/// registry, leaves it holding exactly those `k` arbiters in the order they
/// were added. `states[0]` is the new registry (as [`MojoApp::new`] gives
/// it) and `states[i + 1]` the registry after adding `added[i]` (as
/// [`MojoApp::add_arbiter`] gives it).
pub proof fn lemma_registrations<A>(states: Seq<Seq<A>>, added: Seq<A>)
    requires
        states.len() == added.len() + 1,
        states[0] == Seq::<A>::empty(),
        forall|i: int| 0 <= i < added.len() ==> #[trigger] states[i + 1] == states[i].push(added[i]),
    ensures
        states.last() == added,
        states.last().len() == added.len(),
{
    lemma_registrations_prefix(states, added, added.len() as int);
    assert(added.take(added.len() as int) =~= added);
}

} // verus!
