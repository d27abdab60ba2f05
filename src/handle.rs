//! The owned emulator handle. The native core allocates an instance and hands
//! back its address; this wrapper owns that address, hands it out for each
//! step, and gives it up exactly once, for the destroy call, by consuming
//! itself, so no operation can follow the destroy.
use vstd::prelude::*;

verus! {

/// One call into the native core on an emulator instance.
#[derive(Clone, Copy, Debug, PartialEq, Eq, Structural)]
pub enum NativeOp {
    Create,
    Step,
    Destroy,
}

/// The calls on a handle that is still owned: its creation, then steps.
pub open spec fn is_live_lifetime(ops: Seq<NativeOp>) -> bool {
    &&& ops.len() >= 1
    &&& ops[0] == NativeOp::Create
    &&& forall|i: int| 0 < i < ops.len() ==> ops[i] == NativeOp::Step
}

/// The calls on a handle over its whole life: creation, steps, one destroy.
pub open spec fn is_complete_lifetime(ops: Seq<NativeOp>) -> bool {
    &&& ops.len() >= 2
    &&& ops[0] == NativeOp::Create
    &&& ops.last() == NativeOp::Destroy
    &&& forall|i: int| 0 < i < ops.len() - 1 ==> ops[i] == NativeOp::Step
}

/// Number of destroy calls in `ops`.
pub open spec fn destroy_count(ops: Seq<NativeOp>) -> nat
    decreases ops.len(),
{
    if ops.len() == 0 {
        0
    } else {
        destroy_count(ops.drop_last()) + if ops.last() == NativeOp::Destroy {
            1nat
        } else {
            0nat
        }
    }
}

/// Exclusive owner of one native emulator instance.
pub struct Emulator {
    handle: usize,
    ops: Ghost<Seq<NativeOp>>,
}

impl Emulator {
    /// Address of the native instance.
    pub closed spec fn handle(&self) -> usize {
        self.handle
    }

    /// The calls issued on the instance so far.
    pub closed spec fn issued(&self) -> Seq<NativeOp> {
        self.ops@
    }

    pub closed spec fn wf(&self) -> bool {
        &&& self.handle != 0
        &&& is_live_lifetime(self.ops@)
    }

    /// Takes ownership of the instance at `handle`, which the native create
    /// call returned.
    pub fn new(handle: usize) -> (e: Emulator)
        requires
            handle != 0,
        ensures
            e.wf(),
            e.handle() == handle,
            e.issued() == seq![NativeOp::Create],
    {
        let ghost ops = seq![NativeOp::Create];
        Emulator { handle, ops: Ghost(ops) }
    }

    /// The address to pass to the native step call, recorded as issued.
    pub fn step(&mut self) -> (h: usize)
        requires
            old(self).wf(),
        ensures
            final(self).wf(),
            h == old(self).handle(),
            final(self).handle() == old(self).handle(),
            final(self).issued() == old(self).issued().push(NativeOp::Step),
    {
        let ghost ops = self.ops@.push(NativeOp::Step);
        self.ops = Ghost(ops);
        self.handle
    }

    /// Gives up the instance: the address to pass to the native destroy
    /// call. The wrapper is consumed, so nothing can be issued after it.
    pub fn release(self) -> (h: usize)
        requires
            self.wf(),
        ensures
            h == self.handle(),
            is_complete_lifetime(self.issued().push(NativeOp::Destroy)),
    {
        self.handle
    }
}

/// Over the whole life of a handle the destroy call is issued exactly once,
/// and it is the last call: no operation follows it.
pub proof fn lemma_destroyed_exactly_once(ops: Seq<NativeOp>)
    requires
        is_complete_lifetime(ops),
    ensures
        destroy_count(ops) == 1,
        forall|i: int| 0 <= i < ops.len() && ops[i] == NativeOp::Destroy ==> i == ops.len() - 1,
{
    let prefix = ops.drop_last();
    assert forall|i: int| 0 <= i < prefix.len() implies prefix[i] != NativeOp::Destroy by {
        if i > 0 {
            assert(ops[i] == NativeOp::Step);
        }
    }
    lemma_no_destroy(prefix);
}

proof fn lemma_no_destroy(ops: Seq<NativeOp>)
    requires
        forall|i: int| 0 <= i < ops.len() ==> ops[i] != NativeOp::Destroy,
    ensures
        destroy_count(ops) == 0,
    decreases ops.len(),
{
    if ops.len() > 0 {
        lemma_no_destroy(ops.drop_last());
    }
}

} // verus!
