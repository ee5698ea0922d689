//! The process model: its lifecycle state, its observable surface (the lines
//! handed to the byte sink), and the entry point.

use vstd::prelude::*;

use crate::diag::diagnostic_line;

verus! {

/// Lifecycle state of the process.  It starts `Running`; any fault moves it
/// to `Halted`, and nothing moves it out of `Halted` again.
#[derive(Clone, Copy, Debug, PartialEq, Eq, Structural)]
pub enum ProcessState {
    Running,
    Halted,
}

/// The running program as the bootstrap core observes it: its lifecycle
/// state, the build-time diagnostics decision, the read-only process
/// identity supplied by the surrounding environment, and the lines the
/// byte sink has received so far.
pub struct Process {
    pub state: ProcessState,
    pub diagnostics_enabled: bool,
    pub identity: String,
    pub sink: Vec<String>,
}

impl Process {
    /// A freshly loaded process: running, with nothing emitted yet.
    ///
    /// `diagnostics_enabled` records the build-time decision whether
    /// diagnostic emission is compiled in; `identity` is the display name
    /// the environment gives the program.
    pub fn new(diagnostics_enabled: bool, identity: String) -> (p: Process)
        ensures
            p.state == ProcessState::Running,
            p.diagnostics_enabled == diagnostics_enabled,
            p.identity == identity,
            p.sink@ =~= Seq::<String>::empty(),
    {
        Process { state: ProcessState::Running, diagnostics_enabled, identity, sink: Vec::new() }
    }

    /// One diagnostic call: when diagnostics were compiled in, the byte sink
    /// receives exactly one new line, formatted from the process identity and
    /// `message`; when they were compiled out, the call has no effect at all.
    /// Either way the lifecycle state, the identity and the earlier sink
    /// contents are untouched.
    pub fn emit(&mut self, message: &str)
        ensures
            final(self).state == old(self).state,
            final(self).diagnostics_enabled == old(self).diagnostics_enabled,
            final(self).identity == old(self).identity,
            !old(self).diagnostics_enabled ==> final(self).sink@ =~= old(self).sink@,
            old(self).diagnostics_enabled ==> final(self).sink@.len() == old(self).sink@.len()
                + 1,
            old(self).diagnostics_enabled ==> final(self).sink@.last()@ == diagnostic_line(
                old(self).identity@,
                message@,
            ),
            old(self).diagnostics_enabled ==> final(self).sink@.drop_last() =~= old(self).sink@,
    {
        if self.diagnostics_enabled {
            let line = crate::diag::format_diagnostic(self.identity.as_str(), message);
            self.sink.push(line);
        }
    }
}

/// The message the entry point greets with.
pub open spec fn greeting() -> Seq<char> {
    "Hello, World from Rust!"@
}

/// The entry point: the one symbol the loader calls after it has set up a
/// minimal execution context.  It issues a single greeting diagnostic and
/// returns; it never faults, so the lifecycle state is left as it was.
pub fn main(p: &mut Process)
    ensures
        final(p).state == old(p).state,
        final(p).diagnostics_enabled == old(p).diagnostics_enabled,
        final(p).identity == old(p).identity,
        !old(p).diagnostics_enabled ==> final(p).sink@ =~= old(p).sink@,
        old(p).diagnostics_enabled ==> final(p).sink@.len() == old(p).sink@.len() + 1,
        old(p).diagnostics_enabled ==> final(p).sink@.last()@ == diagnostic_line(
            old(p).identity@,
            greeting(),
        ),
        old(p).diagnostics_enabled ==> final(p).sink@.drop_last() =~= old(p).sink@,
{
    p.emit("Hello, World from Rust!");
}

} // verus!
