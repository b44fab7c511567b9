//! What the controller's commands act on, and the proof that every plan can
//! be carried out.
//!
//! The controller never sees a library, a worker or a file. This module
//! models them as far as the commands change them, says when a command is in
//! order, and proves that the controller hands out nothing but commands that
//! are, whatever events it is fed.

use crate::controller::first_plan;
use crate::controller::shutdown_plan;
use crate::controller::swap_plan;
use crate::controller::Command;
use crate::controller::ControllerState;
use crate::controller::Event;
use vstd::prelude::*;

verus! {

/// A call of an entry point of the reloadable unit on the carried state.
pub enum Call {
    /// The initialisation entry point, which makes the state.
    Init,
    /// The main entry point of a generation, run by its worker.
    Main { generation: u64 },
    /// The post-main entry point of a generation.
    PostMain { generation: u64 },
    /// The drop entry point, which consumes the state.
    Drop,
}

/// The calls that the state has gone through when generation `generation`
/// is up: it was initialised, every earlier generation ran its main and then
/// its post-main entry point, and the main entry point of this generation
/// has been started.
pub open spec fn lifecycle(generation: nat) -> Seq<Call>
    decreases generation,
{
    if generation == 0 {
        seq![Call::Init, Call::Main { generation: 0 }]
    } else {
        lifecycle((generation - 1) as nat).push(
            Call::PostMain { generation: (generation - 1) as u64 },
        ).push(Call::Main { generation: generation as u64 })
    }
}

/// The things outside the controller that its commands create and destroy.
pub struct Resources {
    /// The generation whose library is mapped.
    pub mapped: Option<u64>,
    /// The generation whose worker was launched and has not returned.
    pub worker: Option<u64>,
    /// A cancellation notification is waiting in the single-slot channel.
    pub notified: bool,
    /// The generations whose backing file exists.
    pub backing: Set<u64>,
    /// The interrupt signal is intercepted.
    pub watching: bool,
    /// The carried state exists: it was initialised and not yet dropped.
    pub state: bool,
    /// The entry points that were called on the state, in order.
    pub calls: Seq<Call>,
    /// How many cancellation notifications were sent.
    pub cancellations: nat,
}

impl Resources {
    /// Nothing has been set up.
    pub open spec fn none() -> Resources {
        Resources {
            mapped: None,
            worker: None,
            notified: false,
            backing: Set::empty(),
            watching: false,
            state: false,
            calls: Seq::empty(),
            cancellations: 0,
        }
    }

    /// Generation `generation` is up: mapped from its own file, with a
    /// worker running it, the interrupt watched and the state alive. The
    /// state has gone through [`lifecycle`], and one notification was sent
    /// for each generation that has gone.
    pub open spec fn serving(generation: u64) -> Resources {
        Resources {
            mapped: Some(generation),
            worker: Some(generation),
            notified: false,
            backing: set![generation],
            watching: true,
            state: true,
            calls: lifecycle(generation as nat),
            cancellations: generation as nat,
        }
    }

    /// What is left after an orderly shutdown while `generation` was up: the
    /// worker has returned after one more notification, the state was
    /// dropped as the last call on it, the interrupt is no longer watched.
    pub open spec fn shut_down(generation: u64) -> Resources {
        Resources {
            mapped: Some(generation),
            worker: None,
            notified: false,
            backing: set![generation],
            watching: false,
            state: false,
            calls: lifecycle(generation as nat).push(Call::Drop),
            cancellations: generation as nat + 1,
        }
    }

    /// Whether `command` is in order here.
    ///
    /// A library is unmapped, and its file deleted, only when no worker runs;
    /// a library is mapped only from a file that does not exist yet, into
    /// the empty slot; an entry point is called on the state only when no
    /// worker holds it; a notification is sent only to a worker, and only
    /// into an empty channel.
    pub open spec fn allows(self, command: Command) -> bool {
        match command {
            Command::Build => true,
            Command::Sleep => true,
            Command::Load { generation } => self.mapped is None && self.worker is None
                && !self.backing.contains(generation),
            Command::Init => self.mapped is Some && self.worker is None && !self.state,
            Command::WatchInterrupt => !self.watching,
            Command::Launch => self.mapped is Some && self.worker is None && self.state,
            Command::Cancel => self.worker is Some && !self.notified,
            Command::Join => true,
            Command::PostMain => self.mapped is Some && self.worker is None && self.state,
            Command::Retire { generation } => self.mapped == Some(generation) && self.worker
                is None && self.backing.contains(generation),
            Command::UnwatchInterrupt => self.watching,
            Command::Drop => self.mapped is Some && self.worker is None && self.state,
        }
    }

    /// The resources after `command` has been carried out.
    pub open spec fn after(self, command: Command) -> Resources {
        match command {
            Command::Build => self,
            Command::Sleep => self,
            Command::Load { generation } => Resources {
                mapped: Some(generation),
                backing: self.backing.insert(generation),
                ..self
            },
            Command::Init => Resources { state: true, calls: self.calls.push(Call::Init), ..self },
            Command::WatchInterrupt => Resources { watching: true, ..self },
            Command::Launch => Resources {
                worker: self.mapped,
                calls: self.calls.push(Call::Main { generation: self.mapped->0 }),
                ..self
            },
            Command::Cancel => Resources {
                notified: true,
                cancellations: self.cancellations + 1,
                ..self
            },
            Command::Join => Resources { worker: None, notified: false, ..self },
            Command::PostMain => Resources {
                calls: self.calls.push(Call::PostMain { generation: self.mapped->0 }),
                ..self
            },
            Command::Retire { generation } => Resources {
                mapped: None,
                backing: self.backing.remove(generation),
                ..self
            },
            Command::UnwatchInterrupt => Resources { watching: false, ..self },
            Command::Drop => Resources { state: false, calls: self.calls.push(Call::Drop), ..self },
        }
    }

    /// The resources after the commands of `plan` have been carried out in
    /// order, or `None` where one of them is not in order when its turn
    /// comes.
    pub open spec fn carry_out(self, plan: Seq<Command>) -> Option<Resources>
        decreases plan.len(),
    {
        if plan.len() == 0 {
            Some(self)
        } else {
            match self.carry_out(plan.drop_last()) {
                Some(before) => if before.allows(plan.last()) {
                    Some(before.after(plan.last()))
                } else {
                    None
                },
                None => None,
            }
        }
    }

    /// What the resources are when the controller is in state `s` and all
    /// its plans so far have been carried out.
    pub open spec fn matches_state(self, s: ControllerState) -> bool {
        if !s.launched {
            self == Resources::none()
        } else if s.phase is Stopped {
            self == Resources::shut_down(s.generation)
        } else {
            self == Resources::serving(s.generation)
        }
    }
}

/// Carrying out a plan with one more command at its end.
pub proof fn lemma_carry_out_push(r: Resources, plan: Seq<Command>, command: Command)
    ensures
        r.carry_out(plan.push(command)) == match r.carry_out(plan) {
            Some(before) => if before.allows(command) {
                Some(before.after(command))
            } else {
                None
            },
            None => None,
        },
{
    assert(plan.push(command).drop_last() =~= plan);
}

/// Every plan can be carried out. Where the resources are what the
/// controller's state says, every command of the plan for the next event is
/// in order when its turn comes, and the resources afterwards are again what
/// the controller's state says.
///
/// In particular a generation is retired only after its worker has returned,
/// the next generation is mapped from a file that did not exist, the
/// supervisor calls an entry point only while no worker holds the state, the
/// calls on the state follow [`lifecycle`] with the drop last, and a
/// notification is sent once for each swap and once for the shutdown.
pub proof fn lemma_plans_can_be_carried_out(s: ControllerState, r: Resources, event: Event)
    requires
        s.wf(),
        r.matches_state(s),
        s.swaps_on(event) ==> s.generation < u64::MAX,
    ensures
        r.carry_out(s.step(event).1) is Some,
        r.carry_out(s.step(event).1)->0.matches_state(s.step(event).0),
{
    let plan = s.step(event).1;
    let nothing = Seq::<Command>::empty();
    if s.swaps_on(event) {
        let g = s.generation;
        let next = (g + 1) as u64;
        let one = nothing.push(Command::Cancel);
        let two = one.push(Command::Join);
        let three = two.push(Command::PostMain);
        let four = three.push(Command::Retire { generation: g });
        let five = four.push(Command::Load { generation: next });
        let six = five.push(Command::Launch);
        let seven = six.push(Command::Sleep);
        assert(plan =~= seven);
        lemma_carry_out_push(r, nothing, Command::Cancel);
        lemma_carry_out_push(r, one, Command::Join);
        lemma_carry_out_push(r, two, Command::PostMain);
        lemma_carry_out_push(r, three, Command::Retire { generation: g });
        lemma_carry_out_push(r, four, Command::Load { generation: next });
        lemma_carry_out_push(r, five, Command::Launch);
        lemma_carry_out_push(r, six, Command::Sleep);
        assert(r.carry_out(seven)->0.backing =~= set![next]);
    } else if plan == first_plan() && !s.launched {
        let one = nothing.push(Command::Load { generation: 0 });
        let two = one.push(Command::Init);
        let three = two.push(Command::WatchInterrupt);
        let four = three.push(Command::Launch);
        assert(plan =~= four);
        lemma_carry_out_push(r, nothing, Command::Load { generation: 0 });
        lemma_carry_out_push(r, one, Command::Init);
        lemma_carry_out_push(r, two, Command::WatchInterrupt);
        lemma_carry_out_push(r, three, Command::Launch);
        assert(r.carry_out(four)->0.calls =~= lifecycle(0));
    } else if plan == shutdown_plan() && s.launched {
        let one = nothing.push(Command::Cancel);
        let two = one.push(Command::UnwatchInterrupt);
        let three = two.push(Command::Join);
        let four = three.push(Command::Drop);
        assert(plan =~= four);
        lemma_carry_out_push(r, nothing, Command::Cancel);
        lemma_carry_out_push(r, one, Command::UnwatchInterrupt);
        lemma_carry_out_push(r, two, Command::Join);
        lemma_carry_out_push(r, three, Command::Drop);
    } else if plan.len() == 1 {
        lemma_carry_out_push(r, nothing, plan[0]);
    }
}

/// The controller and the resources after a run: a fresh controller is fed
/// `events` one by one, and each plan is carried out before the next event.
/// The resources are `None` where some command was not in order.
pub open spec fn run(events: Seq<Event>) -> (ControllerState, Option<Resources>)
    decreases events.len(),
{
    if events.len() == 0 {
        (ControllerState::initial(), Some(Resources::none()))
    } else {
        let before = run(events.drop_last());
        let step = before.0.step(events.last());
        (
            step.0,
            match before.1 {
                Some(resources) => resources.carry_out(step.1),
                None => None,
            },
        )
    }
}

/// Whatever the events, and in whatever order they come, a run never
/// reaches a command that is out of order, as long as the generations can
/// still be numbered.
pub proof fn lemma_every_run_can_be_carried_out(events: Seq<Event>)
    requires
        forall|i: int|
            0 <= i < events.len() ==> (#[trigger] run(events.take(i))).0.generation < u64::MAX,
    ensures
        run(events).0.wf(),
        run(events).1 is Some,
        run(events).1->0.matches_state(run(events).0),
    decreases events.len(),
{
    if events.len() > 0 {
        let earlier = events.drop_last();
        assert forall|i: int| 0 <= i < earlier.len() implies (#[trigger] run(
            earlier.take(i),
        )).0.generation < u64::MAX by {
            assert(earlier.take(i) =~= events.take(i));
        }
        lemma_every_run_can_be_carried_out(earlier);
        let before = run(earlier);
        lemma_plans_can_be_carried_out(before.0, before.1->0, events.last());
    }
}

} // verus!
