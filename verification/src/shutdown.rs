use vstd::prelude::*;
use vstd::string::StringExecFns;

verus! {

/// The confirmation owed when the host reports that the application exits.
pub open spec fn exit_note() -> Seq<char> {
    "Application exiting, cleaning up processes..."@
}

/// Observes the host's single global exit signal. The host's own process
/// management terminates the child on exit; the coordinator's responsibility
/// is the confirmation, not the enforcement.
pub struct ShutdownCoordinator {
    pub exit_observed: bool,
}

impl ShutdownCoordinator {
    /// A coordinator that has seen no exit signal yet.
    pub fn new() -> (c: ShutdownCoordinator)
        ensures
            !c.exit_observed,
    {
        ShutdownCoordinator { exit_observed: false }
    }

    /// Reacts to the exit signal: records it and hands back the confirmation
    /// line for the caller to log.
    pub fn on_exit(&mut self) -> (msg: String)
        ensures
            final(self).exit_observed,
            msg@ == exit_note(),
    {
        self.exit_observed = true;
        String::from_str("Application exiting, cleaning up processes...")
    }
}

} // verus!
