//! Fault events and the three terminal fault handlers.
//!
//! A fault is unrecoverable by design: the surrounding runtime invokes one of
//! the handlers out of band, and the handler moves the process into the
//! permanent `Halted` state.  There is no recovery, no retry and no report —
//! once a handler has run, no transition leads out of `Halted` again, and the
//! handler itself touches nothing else: it allocates no memory and emits no
//! diagnostic.

use vstd::prelude::*;

use crate::process::{Process, ProcessState};

verus! {

/// Whether `n` is a power of two.
pub open spec fn is_power_of_two(n: nat) -> bool
    decreases n,
{
    if n == 0 {
        false
    } else if n == 1 {
        true
    } else {
        n % 2 == 0 && is_power_of_two(n / 2)
    }
}

/// Decides `is_power_of_two` for a machine integer.
pub fn check_power_of_two(n: usize) -> (b: bool)
    ensures
        b == is_power_of_two(n as nat),
{
    if n == 0 {
        return false;
    }
    let mut m: usize = n;
    while m % 2 == 0
        invariant
            m >= 1,
            is_power_of_two(m as nat) == is_power_of_two(n as nat),
        decreases m,
    {
        m = m / 2;
    }
    m == 1
}

/// A memory allocation request: a requested size and alignment.
#[derive(Clone, Copy, Debug, PartialEq, Eq, Structural)]
pub struct Layout {
    pub size: usize,
    pub align: usize,
}

impl Layout {
    /// A layout describes a real request only if the size is positive and
    /// the alignment is a power of two.
    pub open spec fn well_formed(self) -> bool {
        self.size > 0 && is_power_of_two(self.align as nat)
    }

    /// Builds a layout, accepting exactly the well-formed ones.
    pub fn new(size: usize, align: usize) -> (r: Option<Layout>)
        ensures
            r is Some <==> (size > 0 && is_power_of_two(align as nat)),
            r is Some ==> r == Some((Layout { size, align })),
    {
        if size > 0 && check_power_of_two(align) {
            Some(Layout { size, align })
        } else {
            None
        }
    }
}

/// Best-effort description of why a panic was raised.  The environment may
/// strip the message, in which case none is carried.
pub struct PanicInfo {
    pub message: Option<String>,
}

/// What made the runtime enter a fault handler: a panic, an attempt to run
/// the unwinding machinery, or an allocation request that could not be
/// satisfied.
pub enum FaultEvent {
    Panic { info: PanicInfo },
    UnwindAttempt,
    AllocationFailure { layout: Layout },
}

/// The fault transition of the process lifecycle: every fault event, from
/// every state, leaves the process halted.
pub open spec fn step(s: ProcessState, e: FaultEvent) -> ProcessState {
    ProcessState::Halted
}

/// Every fault transition is terminal: whatever the state and whatever the
/// event, the process ends up halted.  This is the state-machine form of the
/// handlers' promise never to return control to their caller.
pub proof fn lemma_fault_transition_halts(s: ProcessState, e: FaultEvent)
    ensures
        step(s, e) == ProcessState::Halted,
{
}

/// The halted state is absorbing: no fault event moves the process out of
/// it.  There is no recovery from a fault.
pub proof fn lemma_halted_is_absorbing(e: FaultEvent)
    ensures
        step(ProcessState::Halted, e) == ProcessState::Halted,
{
}

/// The lifecycle state after a whole sequence of fault events, applied in
/// order.
pub open spec fn run_faults(s: ProcessState, es: Seq<FaultEvent>) -> ProcessState
    decreases es.len(),
{
    if es.len() == 0 {
        s
    } else {
        run_faults(step(s, es[0]), es.drop_first())
    }
}

/// A fault is permanent: after any nonempty sequence of fault events, from
/// any starting state, the process is halted — no later event recovers it.
pub proof fn lemma_faults_are_permanent(s: ProcessState, es: Seq<FaultEvent>)
    requires
        es.len() > 0,
    ensures
        run_faults(s, es) == ProcessState::Halted,
    decreases es.len(),
{
    if es.len() > 1 {
        lemma_faults_are_permanent(step(s, es[0]), es.drop_first());
    } else {
        assert(run_faults(s, es) == run_faults(ProcessState::Halted, es.drop_first()));
        assert(es.drop_first().len() == 0);
    }
}

/// The panic handler: invoked by the runtime on an unrecoverable logic
/// error.  It halts the process and does nothing else: no diagnostic is
/// emitted, no memory is touched.
pub fn panic(p: &mut Process, info: PanicInfo)
    ensures
        final(p).state == step(old(p).state, (FaultEvent::Panic { info })),
        final(p).state == ProcessState::Halted,
        final(p).diagnostics_enabled == old(p).diagnostics_enabled,
        final(p).identity == old(p).identity,
        final(p).sink@ =~= old(p).sink@,
{
    p.state = ProcessState::Halted;
}

/// The unwinding personality stub: it exists only to satisfy the linker
/// under a no-unwind build, so being invoked at all is itself a fault, and
/// the process halts.
pub fn eh_personality(p: &mut Process)
    ensures
        final(p).state == step(old(p).state, FaultEvent::UnwindAttempt),
        final(p).state == ProcessState::Halted,
        final(p).diagnostics_enabled == old(p).diagnostics_enabled,
        final(p).identity == old(p).identity,
        final(p).sink@ =~= old(p).sink@,
{
    p.state = ProcessState::Halted;
}

/// The allocation-failure handler: invoked when a memory request cannot be
/// satisfied.  It halts the process and in particular performs no
/// allocation itself.
pub fn alloc_error(p: &mut Process, layout: Layout)
    ensures
        final(p).state == step(old(p).state, (FaultEvent::AllocationFailure { layout })),
        final(p).state == ProcessState::Halted,
        final(p).diagnostics_enabled == old(p).diagnostics_enabled,
        final(p).identity == old(p).identity,
        final(p).sink@ =~= old(p).sink@,
{
    p.state = ProcessState::Halted;
}

} // verus!
