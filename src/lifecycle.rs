//! The shared lifecycle slot and the termination sequencer.
//!
//! The slot holds the handle of the running child, or nothing. Every teardown
//! trigger (window closing, exit requested, application exiting, the child
//! terminating on its own) goes through [`LifecycleState::terminate`], which
//! takes the handle out so that exactly one caller is left holding it.

use vstd::prelude::*;
use vstd::string::*;

use crate::environment::{decimal, decimal_string};

verus! {

/// Why the child could not be started.
#[derive(Debug, PartialEq, Eq)]
pub struct LaunchFailure {
    pub detail: String,
}

/// A single-slot container for the live child handle.
pub struct LifecycleState<C> {
    child: Option<C>,
}

/// What one call of the termination sequencer does: it hands out what the
/// slot held and leaves the slot empty.
pub open spec fn terminate_post<C>(before: Option<C>, after: Option<C>, taken: Option<C>) -> bool {
    &&& taken == before
    &&& after is None
}

impl<C> LifecycleState<C> {
    /// The handle held, if any.
    pub closed spec fn view(&self) -> Option<C> {
        self.child
    }

    /// An empty slot: no child has been launched.
    pub fn new() -> (s: Self)
        ensures
            s.view() is None,
    {
        LifecycleState { child: None }
    }

    /// Whether a child handle is held.
    pub fn is_running(&self) -> (b: bool)
        ensures
            b == self.view() is Some,
    {
        self.child.is_some()
    }

    /// Records the outcome of the one launch: a spawned child is stored, a
    /// failure is reported and leaves the slot empty.
    pub fn install(&mut self, spawned: Result<C, String>) -> (r: Result<(), LaunchFailure>)
        requires
            old(self).view() is None,
        ensures
            match spawned {
                Ok(c) => r is Ok && final(self).view() == Some(c),
                Err(e) => r == Err::<(), LaunchFailure>(LaunchFailure { detail: e })
                    && final(self).view() is None,
            },
    {
        match spawned {
            Ok(c) => {
                self.child = Some(c);
                Ok(())
            },
            Err(e) => Err(LaunchFailure { detail: e }),
        }
    }

    /// The termination sequencer's step under the lock: takes the handle out
    /// so that a concurrent caller sees an empty slot at once. The caller
    /// kills what it got after releasing the lock; `None` means the child is
    /// already torn down and there is nothing to do.
    pub fn terminate(&mut self) -> (taken: Option<C>)
        ensures
            terminate_post(old(self).view(), final(self).view(), taken),
    {
        self.child.take()
    }
}

/// Tearing down an empty slot hands out nothing and leaves it empty.
pub proof fn lemma_terminate_when_absent_is_noop<C>(after: Option<C>, taken: Option<C>)
    requires
        terminate_post(None, after, taken),
    ensures
        taken is None,
        after is None,
{
}

/// However many teardown triggers arrive, and in whatever order the lock lets
/// them through, the child is handed out for killing at most once: by the
/// first one, if the slot held a child, and by none otherwise. Afterwards the
/// slot is empty. `states[i]` is the slot before the `i`-th call and
/// `taken[i]` what that call returned.
pub proof fn lemma_terminations_kill_at_most_once<C>(states: Seq<Option<C>>, taken: Seq<Option<C>>)
    requires
        taken.len() >= 1,
        states.len() == taken.len() + 1,
        forall|i: int|
            0 <= i < taken.len() ==> terminate_post(states[i], states[i + 1], #[trigger] taken[i]),
    ensures
        taken[0] == states[0],
        forall|i: int| 1 <= i < taken.len() ==> #[trigger] taken[i] is None,
        forall|i: int| 1 <= i < states.len() ==> #[trigger] states[i] is None,
{
    assert forall|i: int| 1 <= i < states.len() implies #[trigger] states[i] is None by {
        assert(terminate_post(states[i - 1], states[i], taken[i - 1]));
    }
    assert forall|i: int| 1 <= i < taken.len() implies #[trigger] taken[i] is None by {
        assert(terminate_post(states[i - 1], states[i], taken[i - 1]));
        assert(terminate_post(states[i], states[i + 1], taken[i]));
    }
    assert(terminate_post(states[0], states[1], taken[0]));
}

/// How a taken child is killed on this platform.
#[derive(Debug, PartialEq, Eq)]
pub enum KillMethod {
    /// Run `program` with `args` to kill the child and every process it
    /// started, forcefully, with the command's own output discarded.
    ProcessTree { program: String, args: Vec<String> },
    /// Kill the child through its handle; its descendants are its own affair.
    Direct,
}

/// Chooses the kill for the child with process id `pid`. `tree_kill` says
/// whether the platform offers a process-tree kill command (it does where the
/// child may leave helper processes behind).
pub fn kill_method(tree_kill: bool, pid: u32) -> (m: KillMethod)
    ensures
        tree_kill ==> (m matches KillMethod::ProcessTree { program, args } && program@
            == "taskkill"@ && args.deep_view() == seq!["/PID"@, decimal(pid as nat), "/T"@, "/F"@]),
        !tree_kill ==> m == KillMethod::Direct,
{
    if tree_kill {
        let mut args: Vec<String> = Vec::new();
        args.push(String::from_str("/PID"));
        args.push(decimal_string(pid));
        args.push(String::from_str("/T"));
        args.push(String::from_str("/F"));
        assert(args.deep_view() =~= seq!["/PID"@, decimal(pid as nat), "/T"@, "/F"@]);
        KillMethod::ProcessTree { program: String::from_str("taskkill"), args }
    } else {
        KillMethod::Direct
    }
}

/// A lifecycle notification of the hosting application.
#[derive(Clone, Copy, Debug, PartialEq, Eq)]
pub enum HostEvent {
    /// A window was asked to close.
    WindowCloseRequested,
    /// The application was asked to exit.
    ExitRequested,
    /// The application is exiting.
    Exiting,
    /// Any other notification.
    Other,
}

/// What the host does about one notification.
#[derive(Clone, Copy, Debug, PartialEq, Eq)]
pub struct HostReaction {
    /// Run the termination sequencer.
    pub terminate_sidecar: bool,
    /// Ask the application to exit with status 0.
    pub exit_app: bool,
}

/// The sidecar is torn down on a window close request, an exit request and
/// the exit itself; closing the window also ends the application.
pub fn react_to_host_event(event: HostEvent) -> (r: HostReaction)
    ensures
        r.terminate_sidecar == !(event is Other),
        r.exit_app == event is WindowCloseRequested,
{
    match event {
        HostEvent::WindowCloseRequested => HostReaction { terminate_sidecar: true, exit_app: true },
        HostEvent::ExitRequested => HostReaction { terminate_sidecar: true, exit_app: false },
        HostEvent::Exiting => HostReaction { terminate_sidecar: true, exit_app: false },
        HostEvent::Other => HostReaction { terminate_sidecar: false, exit_app: false },
    }
}

} // verus!
