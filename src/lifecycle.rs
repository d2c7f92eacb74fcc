//! The start-up life cycle: plugins are registered while initializing, control
//! then passes to the framework's run loop, which either ends normally or
//! fails to start, and a failure to start aborts the process.
use vstd::prelude::*;

use crate::builder::{AppBuilder, spec_register};
use crate::plugins::{Plugin, TargetOs, Variant, spec_plugin_list};

verus! {

/// The diagnostic printed when the run loop fails to start.
pub const RUN_FAILURE_MESSAGE: &'static str = "error while running tauri application";

#[derive(Clone, Copy, Debug, PartialEq, Eq, Structural)]
pub enum Phase {
    /// The builder is collecting plugins.
    Initializing,
    /// Control has been handed to the run loop.
    Running,
    /// The run loop returned on its own.
    Exited,
    /// The run loop failed to start; nothing else happens.
    Aborted,
}

/// What the host reports to the life cycle.
#[derive(Clone, Copy, Debug, PartialEq, Eq, Structural)]
pub enum Event {
    /// A plugin is to be attached.
    Register(Plugin),
    /// Start-up is complete and the run loop is to be entered.
    HandOff,
    /// The run loop reported that it could not start.
    RunFailed,
    /// The run loop returned normally.
    RunEnded,
}

/// What the host must do next.
#[derive(Clone, Copy, Debug, PartialEq, Eq, Structural)]
pub enum Action {
    Nothing,
    /// Enter the run loop with the registered plugins.
    StartRunLoop,
    /// Leave the process normally.
    Exit,
    /// Abort the process with the run-failure diagnostic.
    Abort,
}

/// The state after `ev` in `phase` with `plugins` registered.
pub open spec fn spec_step(st: (Phase, Seq<Plugin>), ev: Event) -> (Phase, Seq<Plugin>) {
    match (st.0, ev) {
        (Phase::Initializing, Event::Register(p)) => (Phase::Initializing, spec_register(st.1, p)),
        (Phase::Initializing, Event::HandOff) => (Phase::Running, st.1),
        (Phase::Running, Event::RunFailed) => (Phase::Aborted, st.1),
        (Phase::Running, Event::RunEnded) => (Phase::Exited, st.1),
        _ => st,
    }
}

/// The action that `ev` calls for in `phase`.
pub open spec fn spec_action(phase: Phase, ev: Event) -> Action {
    match (phase, ev) {
        (Phase::Initializing, Event::HandOff) => Action::StartRunLoop,
        (Phase::Running, Event::RunFailed) => Action::Abort,
        (Phase::Running, Event::RunEnded) => Action::Exit,
        _ => Action::Nothing,
    }
}

/// The state after each event of `evs` in turn.
pub open spec fn spec_run(st: (Phase, Seq<Plugin>), evs: Seq<Event>) -> (Phase, Seq<Plugin>)
    decreases evs.len(),
{
    if evs.len() == 0 {
        st
    } else {
        spec_step(spec_run(st, evs.drop_last()), evs.last())
    }
}

/// Start-up state: the phase and the builder of registrations.
pub struct Bootstrap {
    phase: Phase,
    builder: AppBuilder,
}

impl View for Bootstrap {
    type V = (Phase, Seq<Plugin>);

    closed spec fn view(&self) -> (Phase, Seq<Plugin>) {
        (self.phase, self.builder@)
    }
}

impl Bootstrap {
    pub closed spec fn wf(&self) -> bool {
        self.builder.wf()
    }

    /// Initializing, with the registration list of `variant` on `target`.
    pub fn new(variant: Variant, target: TargetOs) -> (r: Bootstrap)
        ensures
            r.wf(),
            r@ == (Phase::Initializing, spec_plugin_list(variant, target)),
    {
        Bootstrap { phase: Phase::Initializing, builder: AppBuilder::for_target(variant, target) }
    }

    /// Initializing, with nothing registered.
    pub fn empty() -> (r: Bootstrap)
        ensures
            r.wf(),
            r@ == (Phase::Initializing, Seq::<Plugin>::empty()),
    {
        Bootstrap { phase: Phase::Initializing, builder: AppBuilder::new() }
    }

    /// Takes one event and says what the host must do.
    pub fn handle(&mut self, ev: Event) -> (act: Action)
        requires
            old(self).wf(),
        ensures
            final(self).wf(),
            final(self)@ == spec_step(old(self)@, ev),
            act == spec_action(old(self)@.0, ev),
    {
        match (self.phase, ev) {
            (Phase::Initializing, Event::Register(p)) => {
                self.builder.plugin(p);
                Action::Nothing
            },
            (Phase::Initializing, Event::HandOff) => {
                self.phase = Phase::Running;
                Action::StartRunLoop
            },
            (Phase::Running, Event::RunFailed) => {
                self.phase = Phase::Aborted;
                Action::Abort
            },
            (Phase::Running, Event::RunEnded) => {
                self.phase = Phase::Exited;
                Action::Exit
            },
            _ => Action::Nothing,
        }
    }

    /// Takes the outcome of the run loop: `Ok` when it returned on its own,
    /// `Err` when it could not start.
    pub fn run_returned<E>(&mut self, outcome: &Result<(), E>) -> (act: Action)
        requires
            old(self).wf(),
        ensures
            final(self).wf(),
            final(self)@ == spec_step(
                old(self)@,
                if outcome is Ok { Event::RunEnded } else { Event::RunFailed },
            ),
            act == spec_action(
                old(self)@.0,
                if outcome is Ok { Event::RunEnded } else { Event::RunFailed },
            ),
    {
        match outcome {
            Ok(()) => self.handle(Event::RunEnded),
            Err(_) => self.handle(Event::RunFailed),
        }
    }

    pub fn phase(&self) -> (r: Phase)
        ensures
            r == self@.0,
    {
        self.phase
    }

    /// The registered plugins, in order.
    pub fn registered(&self) -> (r: Vec<Plugin>)
        ensures
            r@ == self@.1,
    {
        self.builder.registered()
    }
}

/// The diagnostic to print when the run loop fails to start.
pub fn failure_message() -> (r: String)
    ensures
        r@ == RUN_FAILURE_MESSAGE@,
{
    String::from_str(RUN_FAILURE_MESSAGE)
}

/// Once aborted, nothing further happens: whatever events follow, the state
/// stays as it was and no action is called for.
pub proof fn lemma_abort_is_final(st: (Phase, Seq<Plugin>), evs: Seq<Event>)
    requires
        st.0 == Phase::Aborted,
    ensures
        spec_run(st, evs) == st,
        forall|i: int|
            0 <= i < evs.len() ==> spec_action(#[trigger] spec_run(st, evs.take(i)).0, evs[i])
                == Action::Nothing,
    decreases evs.len(),
{
    if evs.len() > 0 {
        lemma_abort_is_final(st, evs.drop_last());
    }
    assert forall|i: int|
        0 <= i < evs.len() implies spec_action(#[trigger] spec_run(st, evs.take(i)).0, evs[i])
            == Action::Nothing by {
        lemma_abort_is_final(st, evs.take(i));
    }
}

/// A failure to start the run loop after hand-off always aborts.
pub proof fn lemma_run_failure_aborts(st: (Phase, Seq<Plugin>))
    requires
        st.0 == Phase::Initializing,
    ensures
        spec_run(st, seq![Event::HandOff, Event::RunFailed]) == (Phase::Aborted, st.1),
        spec_action(spec_step(st, Event::HandOff).0, Event::RunFailed) == Action::Abort,
{
    let evs = seq![Event::HandOff, Event::RunFailed];
    assert(evs.drop_last() =~= seq![Event::HandOff]);
    assert(evs.drop_last().drop_last() =~= Seq::<Event>::empty());
    assert(spec_run(st, evs.drop_last().drop_last()) == st);
    assert(spec_run(st, evs.drop_last()) == (Phase::Running, st.1));
}

} // verus!
