//! The reload controller: the supervisor's decisions as a state machine.
//!
//! The controller never performs work itself. It is told what was observed
//! (an [`Event`]) and answers with the list of things to do next, in order
//! (a plan of [`Command`]s). Whoever drives it runs the build, maps and
//! unmaps libraries, starts workers and sleeps; the controller decides when.

use crate::store::lemma_lib_path_distinct;
use crate::store::lib_path;
use vstd::prelude::*;

verus! {

/// How long a [`Command::Sleep`] lasts, in milliseconds.
pub const POLL_INTERVAL_MILLIS: u64 = 100;

/// Where the controller stands in a reload cycle.
#[derive(Clone, Copy, Debug, PartialEq, Eq, Structural)]
pub enum Phase {
    /// A worker is running and no reload is in flight.
    Idle,
    /// A build has been requested and its outcome is awaited.
    Building,
    /// A swap plan has been handed out and the new worker has not yet been
    /// reported as dispatched.
    Swapping,
    /// Shutdown was observed, or the very first build failed. Terminal.
    Stopped,
}

/// One thing for the driver to do.
#[derive(Clone, Copy, Debug, PartialEq, Eq, Structural)]
pub enum Command {
    /// Run the build collaborator and report its outcome.
    Build,
    /// Copy the compiled artifact to the backing file of `generation` and map
    /// that copy.
    Load { generation: u64 },
    /// Call the required initialisation entry point and store its result as
    /// the carried state.
    Init,
    /// Start intercepting the interrupt signal.
    WatchInterrupt,
    /// Start a worker that runs the required main entry point of the mapped
    /// library against the carried state.
    Launch,
    /// Enqueue one cancellation notification for the active worker.
    Cancel,
    /// Wait until the active worker has returned and handed the state back.
    Join,
    /// Call the optional post-main entry point on the carried state.
    PostMain,
    /// Unmap the library of `generation` and delete its backing file.
    Retire { generation: u64 },
    /// Stop intercepting the interrupt signal.
    UnwatchInterrupt,
    /// Call the optional drop entry point, which consumes the carried state.
    Drop,
    /// Wait one polling interval.
    Sleep,
}

/// One observation reported to the controller.
#[derive(Clone, Copy, Debug, PartialEq, Eq, Structural)]
pub enum Event {
    /// One turn of the polling loop: whether the watched tree changed since
    /// the previous turn, and whether the shutdown flag is raised.
    Polled { changed: bool, interrupted: bool },
    /// The build collaborator has exited.
    BuildFinished { success: bool },
    /// The worker started by the last `Launch` is up and running.
    WorkerDispatched,
}

/// The controller as a mathematical value.
pub struct ControllerState {
    pub phase: Phase,
    /// A change was seen that no build has picked up yet.
    pub reload_pending: bool,
    /// The generation of the library that was mapped last.
    pub generation: u64,
    /// A worker has been launched at some point.
    pub launched: bool,
}

/// The plan that brings up the first generation.
pub open spec fn first_plan() -> Seq<Command> {
    seq![
        Command::Load { generation: 0 },
        Command::Init,
        Command::WatchInterrupt,
        Command::Launch,
    ]
}

/// The plan that replaces generation `outgoing` by its successor.
pub open spec fn swap_plan(outgoing: u64) -> Seq<Command>
    recommends
        outgoing < u64::MAX,
{
    seq![
        Command::Cancel,
        Command::Join,
        Command::PostMain,
        Command::Retire { generation: outgoing },
        Command::Load { generation: (outgoing + 1) as u64 },
        Command::Launch,
        Command::Sleep,
    ]
}

/// The plan that ends the process in an orderly way.
pub open spec fn shutdown_plan() -> Seq<Command> {
    seq![Command::Cancel, Command::UnwatchInterrupt, Command::Join, Command::Drop]
}

impl ControllerState {
    /// The state of a fresh controller: the first build is awaited.
    pub open spec fn initial() -> ControllerState {
        ControllerState {
            phase: Phase::Building,
            reload_pending: false,
            generation: 0,
            launched: false,
        }
    }

    /// States that can be reached from [`ControllerState::initial`]: before
    /// the first launch there is nothing but the first build or the end.
    pub open spec fn wf(self) -> bool {
        self.launched || ((self.phase is Building || self.phase is Stopped) && self.generation
            == 0)
    }

    /// A rebuild or a swap is in flight.
    pub open spec fn reloading(self) -> bool {
        self.phase is Building || self.phase is Swapping
    }

    /// Whether `event` makes this state hand out a swap plan.
    pub open spec fn swaps_on(self, event: Event) -> bool {
        &&& self.phase is Building
        &&& self.launched
        &&& event == (Event::BuildFinished { success: true })
    }

    /// The transition function: the state after `event`, and the plan handed
    /// out for it.
    pub open spec fn step(self, event: Event) -> (ControllerState, Seq<Command>) {
        if self.phase is Stopped {
            (self, Seq::empty())
        } else {
            match event {
                Event::Polled { changed, interrupted } => self.on_poll(changed, interrupted),
                Event::BuildFinished { success } => self.on_build(success),
                Event::WorkerDispatched => self.on_dispatch(),
            }
        }
    }

    /// One turn of the polling loop. Shutdown takes precedence; otherwise a
    /// pending change starts a build only when no reload is in flight.
    pub open spec fn on_poll(self, changed: bool, interrupted: bool) -> (
        ControllerState,
        Seq<Command>,
    ) {
        let pending = self.reload_pending || changed;
        if interrupted {
            (
                ControllerState { phase: Phase::Stopped, reload_pending: pending, ..self },
                if self.launched {
                    shutdown_plan()
                } else {
                    Seq::empty()
                },
            )
        } else if self.phase is Idle && pending {
            (
                ControllerState { phase: Phase::Building, reload_pending: false, ..self },
                seq![Command::Build],
            )
        } else {
            (ControllerState { reload_pending: pending, ..self }, seq![Command::Sleep])
        }
    }

    /// The outcome of a build. Only a controller that awaits one reacts.
    pub open spec fn on_build(self, success: bool) -> (ControllerState, Seq<Command>) {
        if !(self.phase is Building) {
            (self, Seq::empty())
        } else if success && self.launched {
            (
                ControllerState {
                    phase: Phase::Swapping,
                    generation: (self.generation + 1) as u64,
                    ..self
                },
                swap_plan(self.generation),
            )
        } else if success {
            (ControllerState { phase: Phase::Swapping, launched: true, ..self }, first_plan())
        } else if self.launched {
            (
                ControllerState { phase: Phase::Idle, reload_pending: false, ..self },
                Seq::empty(),
            )
        } else {
            (ControllerState { phase: Phase::Stopped, ..self }, Seq::empty())
        }
    }

    /// The new worker is running: the swap is over.
    pub open spec fn on_dispatch(self) -> (ControllerState, Seq<Command>) {
        if self.phase is Swapping {
            (ControllerState { phase: Phase::Idle, ..self }, Seq::empty())
        } else {
            (self, Seq::empty())
        }
    }
}

/// `command` stands in `plan` exactly once.
pub open spec fn occurs_once(plan: Seq<Command>, command: Command) -> bool {
    exists|i: int|
        0 <= i < plan.len() && plan[i] == command && forall|j: int|
            0 <= j < plan.len() && plan[j] == command ==> j == i
}

/// Wherever `later` stands in `plan`, `earlier` stands somewhere before it.
pub open spec fn comes_after(plan: Seq<Command>, later: Command, earlier: Command) -> bool {
    forall|i: int|
        0 <= i < plan.len() && plan[i] == later ==> exists|j: int| 0 <= j < i && plan[j] == earlier
}

/// A build is requested only by an idle controller, which then awaits it:
/// no second build, and no swap, can start before the outcome is in.
pub proof fn lemma_one_reload_in_flight(s: ControllerState, event: Event)
    requires
        s.wf(),
    ensures
        s.step(event).1.contains(Command::Build) ==> s.phase is Idle && s.step(event).0.phase
            is Building && s.step(event).1 == seq![Command::Build],
        s.step(event).1.contains(Command::Launch) ==> s.phase is Building && s.step(
            event,
        ).0.phase is Swapping,
        s.step(event).0.wf(),
{
}

/// Changes that are noticed while a reload is in flight start no build of
/// their own: each is answered with a sleep and remembered. Once the reload
/// has gone through and the new worker is reported, the next poll requests
/// exactly one build for all of them, and the poll after that requests none.
pub proof fn lemma_changes_coalesce(s: ControllerState)
    requires
        s.wf(),
        s.reloading(),
    ensures
        ({
            let change = Event::Polled { changed: true, interrupted: false };
            let quiet = Event::Polled { changed: false, interrupted: false };
            let first = s.step(change);
            let second = first.0.step(change);
            let built = if s.phase is Building {
                second.0.step(Event::BuildFinished { success: true }).0
            } else {
                second.0
            };
            let idle = built.step(Event::WorkerDispatched);
            let rebuild = idle.0.step(quiet);
            let after = rebuild.0.step(quiet);
            &&& first.1 == seq![Command::Sleep]
            &&& second.1 == seq![Command::Sleep]
            &&& second.0 == ControllerState { reload_pending: true, ..s }
            &&& built.phase is Swapping
            &&& idle.0.phase is Idle
            &&& idle.1 == Seq::<Command>::empty()
            &&& rebuild.1 == seq![Command::Build]
            &&& !rebuild.0.reload_pending
            &&& after.1 == seq![Command::Sleep]
        }),
{
}

/// A build that fails leaves the running generation alone: the plan is
/// empty, so nothing is cancelled, retired or launched, the generation
/// stays, and the controller is idle with no change pending. A change seen
/// afterwards requests a fresh build.
pub proof fn lemma_failed_build_is_isolated(s: ControllerState)
    requires
        s.wf(),
        s.phase is Building,
        s.launched,
    ensures
        ({
            let failed = s.step(Event::BuildFinished { success: false });
            let retry = failed.0.step(Event::Polled { changed: true, interrupted: false });
            &&& failed.1 == Seq::<Command>::empty()
            &&& failed.0 == ControllerState { phase: Phase::Idle, reload_pending: false, ..s }
            &&& retry.1 == seq![Command::Build]
            &&& retry.0.phase is Building
        }),
{
}

/// Shutdown is clean: the poll that sees the interrupt sends exactly one
/// cancellation, asks for the drop entry point exactly once and only after
/// the worker has handed the state back, and stops the controller for good.
/// A stopped controller answers every event with an empty plan.
pub proof fn lemma_clean_shutdown(s: ControllerState, changed: bool, later: Event)
    requires
        s.wf(),
        !(s.phase is Stopped),
        s.launched,
    ensures
        ({
            let stop = s.step(Event::Polled { changed, interrupted: true });
            &&& stop.1 == shutdown_plan()
            &&& occurs_once(stop.1, Command::Cancel)
            &&& occurs_once(stop.1, Command::Drop)
            &&& comes_after(stop.1, Command::Drop, Command::Join)
            &&& comes_after(stop.1, Command::Join, Command::Cancel)
            &&& !stop.1.contains(Command::Sleep)
            &&& !stop.1.contains(Command::Build)
            &&& stop.0.phase is Stopped
            &&& stop.0.step(later) == (stop.0, Seq::<Command>::empty())
        }),
{
}

/// Generations are double-buffered. A plan retires no generation but the
/// one that is mapped, and only after the worker has been cancelled and has
/// returned. The generation loaded in the same plan is the next one, it is
/// loaded after the retirement, and its backing file is another file.
pub proof fn lemma_double_buffering(s: ControllerState, event: Event, artifact: Seq<char>)
    requires
        s.wf(),
        s.swaps_on(event) ==> s.generation < u64::MAX,
    ensures
        ({
            let plan = s.step(event).1;
            &&& forall|i: int|
                0 <= i < plan.len() && plan[i] is Retire ==> {
                    &&& plan[i] == Command::Retire { generation: s.generation }
                    &&& exists|j: int| 0 <= j < i && plan[j] == Command::Join
                    &&& exists|j: int| 0 <= j < i && plan[j] == Command::Cancel
                }
            &&& comes_after(plan, Command::Join, Command::Cancel)
            &&& forall|i: int, k: int|
                0 <= i < plan.len() && 0 <= k < plan.len() && plan[i] is Retire && plan[k]
                    is Load ==> {
                    &&& i < k
                    &&& plan[k]->Load_generation == plan[i]->Retire_generation + 1
                    &&& lib_path(artifact, plan[k]->Load_generation) != lib_path(
                        artifact,
                        plan[i]->Retire_generation,
                    )
                }
            &&& forall|k: int|
                0 <= k < plan.len() && plan[k] is Load ==> plan[k] == Command::Load {
                    generation: s.step(event).0.generation,
                }
        }),
{
    if s.swaps_on(event) {
        lemma_lib_path_distinct(artifact, (s.generation + 1) as u64, s.generation);
    }
}

/// The reload controller.
pub struct Controller {
    phase: Phase,
    reload_pending: bool,
    generation: u64,
    launched: bool,
}

impl View for Controller {
    type V = ControllerState;

    closed spec fn view(&self) -> ControllerState {
        ControllerState {
            phase: self.phase,
            reload_pending: self.reload_pending,
            generation: self.generation,
            launched: self.launched,
        }
    }
}

impl Controller {
    /// A controller at process start. The driver runs the first build and
    /// reports its outcome.
    pub fn new() -> (c: Self)
        ensures
            c@ == ControllerState::initial(),
            c@.wf(),
    {
        Controller { phase: Phase::Building, reload_pending: false, generation: 0, launched: false }
    }

    /// Where the controller stands.
    pub fn phase(&self) -> (p: Phase)
        ensures
            p == self@.phase,
    {
        self.phase
    }

    /// Whether a change was seen that no build has picked up yet.
    pub fn reload_pending(&self) -> (b: bool)
        ensures
            b == self@.reload_pending,
    {
        self.reload_pending
    }

    /// Whether a rebuild or a swap is in flight.
    pub fn reloading(&self) -> (b: bool)
        ensures
            b == self@.reloading(),
    {
        match self.phase {
            Phase::Building | Phase::Swapping => true,
            _ => false,
        }
    }

    /// The generation of the library that was mapped last.
    pub fn generation(&self) -> (g: u64)
        ensures
            g == self@.generation,
    {
        self.generation
    }

    /// Whether a worker has been launched at some point.
    pub fn launched(&self) -> (b: bool)
        ensures
            b == self@.launched,
    {
        self.launched
    }

    /// Whether the next swap can still be numbered. False only after
    /// `u64::MAX` swaps.
    pub fn can_swap(&self) -> (b: bool)
        ensures
            b == (self@.generation < u64::MAX),
    {
        self.generation < u64::MAX
    }

    /// Takes one event and returns the plan for it, following
    /// [`ControllerState::step`].
    pub fn step(&mut self, event: Event) -> (plan: Vec<Command>)
        requires
            old(self)@.wf(),
            old(self)@.swaps_on(event) ==> old(self)@.generation < u64::MAX,
        ensures
            (final(self)@, plan@) == old(self)@.step(event),
            final(self)@.wf(),
    {
        match self.phase {
            Phase::Stopped => Vec::new(),
            _ => match event {
                Event::Polled { changed, interrupted } => self.poll(changed, interrupted),
                Event::BuildFinished { success } => self.build_finished(success),
                Event::WorkerDispatched => self.worker_dispatched(),
            },
        }
    }

    fn poll(&mut self, changed: bool, interrupted: bool) -> (plan: Vec<Command>)
        requires
            old(self)@.wf(),
        ensures
            (final(self)@, plan@) == old(self)@.on_poll(changed, interrupted),
            final(self)@.wf(),
    {
        let pending = self.reload_pending || changed;
        if interrupted {
            self.phase = Phase::Stopped;
            self.reload_pending = pending;
            if self.launched {
                vec![
                    Command::Cancel,
                    Command::UnwatchInterrupt,
                    Command::Join,
                    Command::Drop,
                ]
            } else {
                Vec::new()
            }
        } else if self.phase == Phase::Idle && pending {
            self.phase = Phase::Building;
            self.reload_pending = false;
            vec![Command::Build]
        } else {
            self.reload_pending = pending;
            vec![Command::Sleep]
        }
    }

    fn build_finished(&mut self, success: bool) -> (plan: Vec<Command>)
        requires
            old(self)@.wf(),
            old(self)@.swaps_on(Event::BuildFinished { success }) ==> old(self)@.generation
                < u64::MAX,
        ensures
            (final(self)@, plan@) == old(self)@.on_build(success),
            final(self)@.wf(),
    {
        if self.phase != Phase::Building {
            Vec::new()
        } else if success && self.launched {
            let outgoing = self.generation;
            self.phase = Phase::Swapping;
            self.generation = outgoing + 1;
            vec![
                Command::Cancel,
                Command::Join,
                Command::PostMain,
                Command::Retire { generation: outgoing },
                Command::Load { generation: outgoing + 1 },
                Command::Launch,
                Command::Sleep,
            ]
        } else if success {
            self.phase = Phase::Swapping;
            self.launched = true;
            vec![
                Command::Load { generation: 0 },
                Command::Init,
                Command::WatchInterrupt,
                Command::Launch,
            ]
        } else if self.launched {
            self.phase = Phase::Idle;
            self.reload_pending = false;
            Vec::new()
        } else {
            self.phase = Phase::Stopped;
            Vec::new()
        }
    }

    fn worker_dispatched(&mut self) -> (plan: Vec<Command>)
        requires
            old(self)@.wf(),
        ensures
            (final(self)@, plan@) == old(self)@.on_dispatch(),
            final(self)@.wf(),
    {
        if self.phase == Phase::Swapping {
            self.phase = Phase::Idle;
        }
        Vec::new()
    }
}

} // verus!
