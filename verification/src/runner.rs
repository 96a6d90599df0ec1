//! The frame loop, cut into steps: each step decides what has to happen next, and whoever
//! drives the loop makes it happen and steps again.

use crate::backend::{drained, BackendState, OrbitalBackend};
use crate::native::{decoded, NativeEvent, RawEvent};
use vstd::prelude::*;

verus! {

/// The two flags that the loop shares with the rest of the toolkit.
#[derive(Clone, Copy, Debug, PartialEq, Eq, Structural)]
pub struct LoopFlags {
    /// Set by whoever wants the next frame to be redone; cleared by the loop after each tick.
    pub update: bool,
    /// The loop goes on for as long as this is set.
    pub running: bool,
}

/// Where the loop stands.
#[derive(Clone, Copy, Debug, PartialEq, Eq, Structural)]
pub enum RunnerState {
    /// The loop has not been entered yet.
    Idle,
    /// The world was asked to tick; the rest of the iteration is still to come.
    Ticking,
    /// The window was asked for its events; what it delivers ends the iteration.
    Draining,
    /// The loop has ended, for good.
    Stopped,
}

/// What the driver of the loop has to do before it steps again.
#[derive(Clone, Copy, Debug, PartialEq, Eq, Structural)]
pub enum RunnerAction {
    /// Advance the attached world by one tick.
    Tick,
    /// Synchronize the window and collect the raw events it delivers.
    Drain,
    /// Leave the loop.
    Stop,
}

/// What a step finds when it is taken. Between two steps the world may tick and the driver
/// may do as it likes, so every step finds its own.
pub struct Found {
    /// Whether a world is attached.
    pub world_attached: bool,
    /// What the backend holds.
    pub backend: BackendState,
    /// What the flags hold.
    pub flags: LoopFlags,
    /// What the window delivered to the last `Drain`.
    pub delivered: Seq<NativeEvent>,
}

/// The result of one step: where the loop stands now, what the backend and the flags hold,
/// and what to do next.
pub struct Step {
    pub state: RunnerState,
    pub backend: BackendState,
    pub flags: LoopFlags,
    pub action: RunnerAction,
}

/// The decision at the top of an iteration, over a backend that holds `backend`. With the
/// running flag cleared the loop stops. Otherwise an attached world ticks first; with no
/// world attached the tick is skipped, the update flag is cleared and the window is drained
/// at once.
pub open spec fn polled(found: Found, backend: BackendState) -> Step {
    if !found.flags.running {
        Step {
            state: RunnerState::Stopped,
            backend,
            flags: found.flags,
            action: RunnerAction::Stop,
        }
    } else if found.world_attached {
        Step {
            state: RunnerState::Ticking,
            backend,
            flags: found.flags,
            action: RunnerAction::Tick,
        }
    } else {
        Step {
            state: RunnerState::Draining,
            backend,
            flags: LoopFlags { update: false, running: true },
            action: RunnerAction::Drain,
        }
    }
}

/// One step of the loop from `state`.
///
/// - From `Idle`, the first iteration begins.
/// - From `Ticking`, the tick is over: the update flag is cleared and the window is drained.
///   The running flag is not looked at here.
/// - From `Draining`, the delivered events are translated into the queue, which ends the
///   iteration, and the next one begins.
/// - `Stopped` is final.
///
/// What the window delivered counts only in a step from `Draining`.
pub open spec fn stepped(state: RunnerState, found: Found) -> Step {
    match state {
        RunnerState::Idle => polled(found, found.backend),
        RunnerState::Ticking => Step {
            state: RunnerState::Draining,
            backend: found.backend,
            flags: LoopFlags { update: false, running: found.flags.running },
            action: RunnerAction::Drain,
        },
        RunnerState::Draining => polled(found, drained(found.backend, found.delivered)),
        RunnerState::Stopped => Step {
            state: RunnerState::Stopped,
            backend: found.backend,
            flags: found.flags,
            action: RunnerAction::Stop,
        },
    }
}

/// The runner of the frame loop for an Orbital backend. It may hold a world of type `W`.
pub struct OrbitalBackendRunner<W> {
    pub world: Option<W>,
    pub state: RunnerState,
}

impl<W> OrbitalBackendRunner<W> {
    /// A runner that has not entered its loop and has no world attached.
    pub fn new() -> (runner: OrbitalBackendRunner<W>)
        ensures
            runner.world.is_none(),
            runner.state == RunnerState::Idle,
    {
        OrbitalBackendRunner { world: None, state: RunnerState::Idle }
    }

    /// Attaches `world`, in place of any world attached before.
    pub fn world(&mut self, world: W)
        ensures
            final(self).world == Some(world),
            final(self).state == old(self).state,
    {
        self.world = Some(world);
    }

    /// Takes one step of the loop on `backend` and says what the driver has to do next.
    /// `delivered` holds the raw events that the window delivered to the last `Drain`.
    pub fn step<R, T>(
        &mut self,
        backend: &mut OrbitalBackend<R, T>,
        flags: &mut LoopFlags,
        delivered: &Vec<RawEvent>,
    ) -> (action: RunnerAction)
        ensures
            (Step {
                state: final(self).state,
                backend: final(backend)@,
                flags: *final(flags),
                action,
            }) == stepped(
                old(self).state,
                (Found {
                    world_attached: old(self).world.is_some(),
                    backend: old(backend)@,
                    flags: *old(flags),
                    delivered: delivered@.map_values(|r: RawEvent| decoded(r)),
                }),
            ),
            final(self).world == old(self).world,
            final(backend).surface() == old(backend).surface(),
            final(backend).theme() == old(backend).theme(),
    {
        match self.state {
            RunnerState::Idle => self.poll(flags),
            RunnerState::Ticking => {
                flags.update = false;
                self.state = RunnerState::Draining;
                RunnerAction::Drain
            },
            RunnerState::Draining => {
                backend.drain_events(delivered);
                self.poll(flags)
            },
            RunnerState::Stopped => RunnerAction::Stop,
        }
    }

    /// Begins an iteration, or ends the loop.
    fn poll(&mut self, flags: &mut LoopFlags) -> (action: RunnerAction)
        ensures
            final(self).world == old(self).world,
            !old(flags).running ==> {
                &&& action == RunnerAction::Stop
                &&& final(self).state == RunnerState::Stopped
                &&& *final(flags) == *old(flags)
            },
            old(flags).running && old(self).world.is_some() ==> {
                &&& action == RunnerAction::Tick
                &&& final(self).state == RunnerState::Ticking
                &&& *final(flags) == *old(flags)
            },
            old(flags).running && old(self).world.is_none() ==> {
                &&& action == RunnerAction::Drain
                &&& final(self).state == RunnerState::Draining
                &&& *final(flags) == (LoopFlags { update: false, running: true })
            },
    {
        if !flags.running {
            self.state = RunnerState::Stopped;
            RunnerAction::Stop
        } else if self.world.is_some() {
            self.state = RunnerState::Ticking;
            RunnerAction::Tick
        } else {
            flags.update = false;
            self.state = RunnerState::Draining;
            RunnerAction::Drain
        }
    }
}

/// Where the loop stands after a run of steps from `state`, one for each entry of `run`.
pub open spec fn state_after(state: RunnerState, run: Seq<Found>) -> RunnerState
    decreases run.len(),
{
    if run.len() == 0 {
        state
    } else {
        stepped(state_after(state, run.drop_last()), run.last()).state
    }
}

/// What the step number `index` of a run from `state` asks for.
pub open spec fn action_at(state: RunnerState, run: Seq<Found>, index: int) -> RunnerAction {
    stepped(state_after(state, run.take(index)), run[index]).action
}

/// What one step does, case by case. A tick is asked for only at the top of an iteration,
/// with a world attached and the running flag set, and the step that follows a tick asks
/// for the drain. With a world attached, a drain is asked for only once a tick is over. The
/// update flag is cleared whenever a drain is asked for. The runner writes to the queue in
/// one place only: where it ends an iteration with what the drain delivered.
pub proof fn lemma_step_facts(state: RunnerState, found: Found)
    ensures
        ({
            let step = stepped(state, found);
            &&& step.action == RunnerAction::Tick ==> {
                &&& state == RunnerState::Idle || state == RunnerState::Draining
                &&& found.world_attached
                &&& found.flags.running
            }
            &&& step.action == RunnerAction::Tick <==> step.state == RunnerState::Ticking
            &&& step.action == RunnerAction::Drain <==> step.state == RunnerState::Draining
            &&& step.action == RunnerAction::Stop <==> step.state == RunnerState::Stopped
            &&& state == RunnerState::Ticking ==> step.action == RunnerAction::Drain
            &&& step.action == RunnerAction::Drain && found.world_attached ==> state
                == RunnerState::Ticking
            &&& step.action == RunnerAction::Drain ==> !step.flags.update
            &&& step.flags.running == found.flags.running
            &&& state != RunnerState::Draining ==> step.backend == found.backend
            &&& state == RunnerState::Draining ==> step.backend == drained(
                found.backend,
                found.delivered,
            )
        }),
{
}

/// In every run of steps of a loop entered from `Idle`, the world ticks before the window
/// is drained: a step that asks for a tick is followed by one that asks for the drain, and
/// a step that asks for a drain while a world is attached comes right after one that asked
/// for the tick. The step after the tick leaves the queue as the tick left it: nothing
/// that the window delivers reaches the queue before the drain was asked for.
pub proof fn lemma_tick_comes_before_drain(run: Seq<Found>, index: int)
    requires
        0 <= index < run.len(),
    ensures
        action_at(RunnerState::Idle, run, index) == RunnerAction::Tick && index + 1 < run.len()
            ==> action_at(RunnerState::Idle, run, index + 1) == RunnerAction::Drain,
        action_at(RunnerState::Idle, run, index) == RunnerAction::Drain
            && run[index].world_attached ==> index > 0 && action_at(
            RunnerState::Idle,
            run,
            index - 1,
        ) == RunnerAction::Tick,
        index > 0 && action_at(RunnerState::Idle, run, index - 1) == RunnerAction::Tick ==> stepped(
            state_after(RunnerState::Idle, run.take(index)),
            run[index],
        ).backend == run[index].backend,
{
    if index + 1 < run.len() {
        assert(run.take(index + 1).drop_last() == run.take(index));
    }
    if index > 0 {
        assert(run.take(index).drop_last() == run.take(index - 1));
    }
}

/// Once the running flag is cleared and stays so, the loop ends with the iteration under way
/// and the world does not tick again. From the step number `cleared` on, no step asks for a
/// tick; the first of them asks for the drain where a tick was just over, and stops the loop
/// otherwise; every later one asks for nothing but to stop. This holds from any state and
/// whatever else the steps find.
pub proof fn lemma_cleared_flag_ends_loop(
    state: RunnerState,
    run: Seq<Found>,
    cleared: int,
    index: int,
)
    requires
        0 <= cleared <= index < run.len(),
        forall|i: int| cleared <= i < run.len() ==> !(#[trigger] run[i]).flags.running,
    ensures
        action_at(state, run, index) != RunnerAction::Tick,
        index == cleared ==> (action_at(state, run, index) == RunnerAction::Drain <==> state_after(
            state,
            run.take(cleared),
        ) == RunnerState::Ticking),
        index > cleared ==> action_at(state, run, index) == RunnerAction::Stop,
        index > cleared ==> state_after(state, run.take(index + 1)) == RunnerState::Stopped,
    decreases index - cleared,
{
    assert(run.take(index + 1).drop_last() == run.take(index));
    if index > cleared {
        assert(run.take(index).drop_last() == run.take(index - 1));
        lemma_cleared_flag_ends_loop(state, run, cleared, index - 1);
    }
}

/// A stopped loop stays stopped: whatever it finds, a step asks for nothing but to stop and
/// changes nothing.
pub proof fn lemma_stopped_is_final(found: Found)
    ensures
        stepped(RunnerState::Stopped, found) == (Step {
            state: RunnerState::Stopped,
            backend: found.backend,
            flags: found.flags,
            action: RunnerAction::Stop,
        }),
{
}

} // verus!
