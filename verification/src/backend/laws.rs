//! What holds of every worker, whatever the commands it is given.

use crate::backend::sequence::{
    lemma_advance_is_modular, lemma_next_cycles_through_all, lemma_steps_are_modular,
    spec_advance, spec_next_index, spec_previous_index, spec_reached_within_cycle,
};
use crate::backend::shuffle::{is_permutation, lemma_permutation_is_onto, spec_resolve};
use crate::backend::state::{BackgroundLoopEvent, PlaybackPosition};
use crate::backend::{PlayStatus, WorkerAction, WorkerModel};
use vstd::prelude::*;

verus! {

/// What a worker is fed: a command, with what the sink reported when the
/// command was taken, or the outcome of opening a track.
pub enum WorkerInput {
    Command { event: BackgroundLoopEvent, sink_empty: bool },
    LoadOutcome { loaded: bool },
}

impl WorkerModel {
    /// The worker after one input.
    pub open spec fn spec_fed(self, input: WorkerInput) -> WorkerModel {
        match input {
            WorkerInput::Command { event, sink_empty } => self.spec_step(event, sink_empty).0,
            WorkerInput::LoadOutcome { loaded } => self.spec_load_finished(loaded),
        }
    }

    /// The worker after `inputs`, taken one after the other.
    pub open spec fn spec_fed_all(self, inputs: Seq<WorkerInput>) -> WorkerModel
        decreases inputs.len(),
    {
        if inputs.len() == 0 {
            self
        } else {
            self.spec_fed_all(inputs.drop_last()).spec_fed(inputs.last())
        }
    }

    /// The worker after `steps` commands `Next` in a row.
    pub open spec fn spec_after_nexts(self, steps: nat) -> WorkerModel
        decreases steps,
    {
        if steps == 0 {
            self
        } else {
            self.spec_after_nexts((steps - 1) as nat).spec_step(BackgroundLoopEvent::Next, false).0
        }
    }

    /// The track at which the worker stands after `steps` commands `Next`.
    pub open spec fn spec_track_after_nexts(self, steps: nat) -> usize {
        self.spec_after_nexts(steps).position.physical_index
    }

    /// Whether the worker stands at `track` after fewer commands `Next` than
    /// the catalog has tracks.
    pub open spec fn spec_plays_within_cycle(self, track: usize) -> bool {
        exists|k: nat| k < self.tracks.len() && #[trigger] self.spec_track_after_nexts(k) == track
    }
}

/// No command leads a worker out of the catalog: after any command the worker
/// is well formed again, and in a catalog that is not empty both indices of
/// its position name a track. The catalog and the shuffle order never change.
pub proof fn lemma_step_keeps_position_in_catalog(
    worker: WorkerModel,
    event: BackgroundLoopEvent,
    sink_empty: bool,
)
    requires
        worker.wf(),
    ensures
        worker.spec_step(event, sink_empty).0.wf(),
        worker.spec_step(event, sink_empty).0.tracks == worker.tracks,
        worker.spec_step(event, sink_empty).0.order == worker.order,
        worker.tracks.len() > 0 ==> {
            &&& worker.spec_step(event, sink_empty).0.position.logical_index < worker.tracks.len()
            &&& worker.spec_step(event, sink_empty).0.position.physical_index < worker.tracks.len()
        },
        worker.spec_step(event, sink_empty).1 matches WorkerAction::LoadTrack { index, .. }
            ==> index < worker.tracks.len(),
{
    if worker.tracks.len() > 0 {
        lemma_steps_are_modular(worker.position.logical_index as int, worker.tracks.len() as int);
    }
}

/// Whatever a worker is fed, in whatever order, it stays well formed: no
/// position outside the catalog is ever reached, and the catalog and the
/// shuffle order are those it was started with.
pub proof fn lemma_worker_stays_well_formed(worker: WorkerModel, inputs: Seq<WorkerInput>)
    requires
        worker.wf(),
    ensures
        worker.spec_fed_all(inputs).wf(),
        worker.spec_fed_all(inputs).tracks == worker.tracks,
        worker.spec_fed_all(inputs).order == worker.order,
        worker.tracks.len() > 0 ==> {
            &&& worker.spec_fed_all(inputs).position.logical_index < worker.tracks.len()
            &&& worker.spec_fed_all(inputs).position.physical_index < worker.tracks.len()
        },
    decreases inputs.len(),
{
    if inputs.len() > 0 {
        lemma_worker_stays_well_formed(worker, inputs.drop_last());
        let before = worker.spec_fed_all(inputs.drop_last());
        match inputs.last() {
            WorkerInput::Command { event, sink_empty } => {
                lemma_step_keeps_position_in_catalog(before, event, sink_empty);
            },
            WorkerInput::LoadOutcome { loaded } => {},
        }
    }
}

/// Only `Next`, `Previous` and a `Tick` that finds a track ended move the
/// logical index. Every other command leaves it where it was, and only
/// `ShuffleToggled` changes the shuffle mode.
pub proof fn lemma_only_skips_move_the_logical_index(
    worker: WorkerModel,
    event: BackgroundLoopEvent,
    sink_empty: bool,
)
    requires
        worker.wf(),
    ensures
        !(event is Next || event is Previous || (event is Tick && sink_empty && worker.status
            == PlayStatus::Playing)) ==> worker.spec_step(
            event,
            sink_empty,
        ).0.position.logical_index == worker.position.logical_index,
        !(event is ShuffleToggled) ==> worker.spec_step(
            event,
            sink_empty,
        ).0.position.shuffle_enabled == worker.position.shuffle_enabled,
        (event is Play || event is Pause || event is Resume) ==> worker.spec_step(
            event,
            sink_empty,
        ).0.position == worker.position,
{
}

/// `Next` moves the logical index one step forward and `Previous` one step
/// backward, both with wraparound; either one followed by the other returns
/// the worker to the position it started from.
pub proof fn lemma_next_and_previous_are_inverse(worker: WorkerModel)
    requires
        worker.wf(),
        worker.tracks.len() > 0,
    ensures
        worker.spec_step(BackgroundLoopEvent::Next, false).0.position.logical_index
            == spec_next_index(worker.position.logical_index as int, worker.tracks.len() as int),
        worker.spec_step(BackgroundLoopEvent::Previous, false).0.position.logical_index
            == spec_previous_index(
            worker.position.logical_index as int,
            worker.tracks.len() as int,
        ),
        worker.spec_step(BackgroundLoopEvent::Next, false).0.spec_step(
            BackgroundLoopEvent::Previous,
            false,
        ).0.position == worker.position,
        worker.spec_step(BackgroundLoopEvent::Previous, false).0.spec_step(
            BackgroundLoopEvent::Next,
            false,
        ).0.position == worker.position,
{
    lemma_steps_are_modular(worker.position.logical_index as int, worker.tracks.len() as int);
}

/// After `steps` commands `Next` the logical index has moved `steps` steps
/// forward, and the physical index is the track it stands for.
pub proof fn lemma_position_after_nexts(worker: WorkerModel, steps: nat)
    requires
        worker.wf(),
        worker.tracks.len() > 0,
    ensures
        worker.spec_after_nexts(steps).wf(),
        worker.spec_after_nexts(steps).tracks == worker.tracks,
        worker.spec_after_nexts(steps).order == worker.order,
        worker.spec_after_nexts(steps).position.shuffle_enabled == worker.position.shuffle_enabled,
        worker.spec_after_nexts(steps).position.logical_index == spec_advance(
            worker.position.logical_index as int,
            worker.tracks.len() as int,
            steps,
        ),
        worker.spec_after_nexts(steps).position.logical_index == (worker.position.logical_index
            + steps) % (worker.tracks.len() as int),
        worker.spec_track_after_nexts(steps) == spec_resolve(
            spec_advance(worker.position.logical_index as int, worker.tracks.len() as int, steps),
            worker.position.shuffle_enabled,
            worker.order,
        ),
    decreases steps,
{
    let start = worker.position.logical_index as int;
    let count = worker.tracks.len() as int;
    lemma_advance_is_modular(start, count, steps);
    if steps > 0 {
        lemma_position_after_nexts(worker, (steps - 1) as nat);
        lemma_advance_is_modular(start, count, (steps - 1) as nat);
        lemma_steps_are_modular(spec_advance(start, count, (steps - 1) as nat), count);
    }
}

/// Repeated `Next` walks through the whole catalog before anything comes
/// again: the first positions visited, as many as the catalog has tracks, are
/// pairwise different in their logical index and in the track they play,
/// every track of the catalog is among those played, and one more `Next`
/// returns to the starting position. With shuffle on, the tracks come in the
/// shuffle order; with shuffle off, in the order of the catalog.
pub proof fn lemma_next_visits_every_track_once(worker: WorkerModel)
    requires
        worker.wf(),
        worker.tracks.len() > 0,
    ensures
        forall|j: nat, k: nat|
            #![trigger worker.spec_after_nexts(j), worker.spec_after_nexts(k)]
            j < k < worker.tracks.len() ==> worker.spec_after_nexts(j).position.logical_index
                != worker.spec_after_nexts(k).position.logical_index,
        forall|j: nat, k: nat|
            #![trigger worker.spec_track_after_nexts(j), worker.spec_track_after_nexts(k)]
            j < k < worker.tracks.len() ==> worker.spec_track_after_nexts(j)
                != worker.spec_track_after_nexts(k),
        forall|track: usize|
            track < worker.tracks.len() ==> #[trigger] worker.spec_plays_within_cycle(track),
        worker.spec_after_nexts(worker.tracks.len()).position == worker.position,
{
    let start = worker.position.logical_index as int;
    let count = worker.tracks.len() as int;
    lemma_next_cycles_through_all(start, count);
    assert forall|j: nat, k: nat|
        #![trigger worker.spec_after_nexts(j), worker.spec_after_nexts(k)]
        j < k < worker.tracks.len() implies worker.spec_after_nexts(j).position.logical_index
        != worker.spec_after_nexts(k).position.logical_index by {
        lemma_position_after_nexts(worker, j);
        lemma_position_after_nexts(worker, k);
    }
    assert forall|j: nat, k: nat|
        #![trigger worker.spec_track_after_nexts(j), worker.spec_track_after_nexts(k)]
        j < k < worker.tracks.len() implies worker.spec_track_after_nexts(j)
        != worker.spec_track_after_nexts(k) by {
        lemma_position_after_nexts(worker, j);
        lemma_position_after_nexts(worker, k);
        lemma_advance_is_modular(start, count, j);
        lemma_advance_is_modular(start, count, k);
    }
    assert forall|track: usize| track < worker.tracks.len() implies #[trigger] worker.spec_plays_within_cycle(
    track) by {
        let logical: int = if worker.position.shuffle_enabled {
            lemma_permutation_is_onto(worker.order, worker.tracks.len(), track);
            choose|i: int| 0 <= i < worker.order.len() && worker.order[i] == track
        } else {
            track as int
        };
        assert(spec_reached_within_cycle(start, count, logical));
        let k = choose|k: nat| k < count && #[trigger] spec_advance(start, count, k) == logical;
        lemma_position_after_nexts(worker, k);
    }
    lemma_position_after_nexts(worker, worker.tracks.len());
}

/// With shuffle on, the track played after `steps` commands `Next` is the
/// entry of the shuffle order at the logical index moved `steps` steps
/// forward.
pub proof fn lemma_shuffled_next_follows_order(worker: WorkerModel, steps: nat)
    requires
        worker.wf(),
        worker.tracks.len() > 0,
        worker.position.shuffle_enabled,
    ensures
        worker.spec_track_after_nexts(steps) == worker.order[(worker.position.logical_index
            + steps) % (worker.tracks.len() as int)],
{
    lemma_position_after_nexts(worker, steps);
}

/// Switching shuffle mode never moves the logical index. Switched on, the
/// physical index becomes the entry of the shuffle order at the logical
/// index; switched off, it becomes the logical index itself. So on and off
/// again, with no other command between, ends at the logical index where it
/// began, and off and on again returns to the shuffled track.
pub proof fn lemma_shuffle_toggle_keeps_logical_index(worker: WorkerModel, flag: bool)
    requires
        worker.wf(),
        worker.tracks.len() > 0,
    ensures
        worker.spec_step(BackgroundLoopEvent::ShuffleToggled(flag), false).1
            == WorkerAction::Nothing,
        worker.spec_step(BackgroundLoopEvent::ShuffleToggled(flag), false).0.status
            == worker.status,
        worker.spec_step(BackgroundLoopEvent::ShuffleToggled(flag), false).0.position
            == (PlaybackPosition {
            logical_index: worker.position.logical_index,
            physical_index: if flag {
                worker.order[worker.position.logical_index as int]
            } else {
                worker.position.logical_index
            },
            shuffle_enabled: flag,
        }),
        worker.spec_step(BackgroundLoopEvent::ShuffleToggled(flag), false).0.spec_step(
            BackgroundLoopEvent::ShuffleToggled(!flag),
            false,
        ).0.position == (PlaybackPosition {
            logical_index: worker.position.logical_index,
            physical_index: if flag {
                worker.position.logical_index
            } else {
                worker.order[worker.position.logical_index as int]
            },
            shuffle_enabled: !flag,
        }),
        worker.spec_step(BackgroundLoopEvent::ShuffleToggled(worker.position.shuffle_enabled), false).0
            == worker,
{
}

/// In an empty catalog no command asks for a track, and `Play`, `Next`,
/// `Previous` and `Tick` leave the worker as it was and the sink alone.
pub proof fn lemma_empty_catalog_is_left_alone(
    worker: WorkerModel,
    event: BackgroundLoopEvent,
    sink_empty: bool,
)
    requires
        worker.wf(),
        worker.tracks.len() == 0,
    ensures
        !(worker.spec_step(event, sink_empty).1 is LoadTrack),
        (event is Play || event is Next || event is Previous || event is Tick) ==> worker.spec_step(
            event,
            sink_empty,
        ) == (worker, WorkerAction::Nothing),
{
}

/// `Play` itself changes nothing of the worker, and a track that could not be
/// opened changes nothing either: after a failed `Play` the worker is the
/// one it was before, and takes the next command as it would have.
pub proof fn lemma_failed_play_is_absorbed(
    worker: WorkerModel,
    next: BackgroundLoopEvent,
    sink_empty: bool,
)
    requires
        worker.wf(),
    ensures
        worker.spec_step(BackgroundLoopEvent::Play, sink_empty).0.spec_load_finished(false)
            == worker,
        worker.spec_step(BackgroundLoopEvent::Play, sink_empty).0.spec_load_finished(
            false,
        ).spec_step(next, sink_empty) == worker.spec_step(next, sink_empty),
{
}

/// Whatever command asked for a track, failing to open it leaves the worker
/// as the command left it.
pub proof fn lemma_failed_load_changes_nothing(worker: WorkerModel)
    ensures
        worker.spec_load_finished(false) == worker,
        worker.spec_load_finished(true) == worker.spec_in(PlayStatus::Playing),
{
}

/// `Pause` acts only on a playing worker and `Resume` only on a paused one:
/// pausing twice pauses the sink once, and resuming what plays does nothing.
pub proof fn lemma_pause_and_resume_are_idempotent(worker: WorkerModel, sink_empty: bool)
    ensures
        worker.status != PlayStatus::Playing ==> worker.spec_step(
            BackgroundLoopEvent::Pause,
            sink_empty,
        ) == (worker, WorkerAction::Nothing),
        worker.status != PlayStatus::Paused ==> worker.spec_step(
            BackgroundLoopEvent::Resume,
            sink_empty,
        ) == (worker, WorkerAction::Nothing),
        worker.spec_step(BackgroundLoopEvent::Pause, sink_empty).0.spec_step(
            BackgroundLoopEvent::Pause,
            sink_empty,
        ) == (worker.spec_step(BackgroundLoopEvent::Pause, sink_empty).0, WorkerAction::Nothing),
        worker.spec_step(BackgroundLoopEvent::Resume, sink_empty).0.spec_step(
            BackgroundLoopEvent::Resume,
            sink_empty,
        ) == (worker.spec_step(BackgroundLoopEvent::Resume, sink_empty).0, WorkerAction::Nothing),
{
}

/// A track that ends while the worker plays is followed by exactly one step
/// forward: the `Tick` that finds the sink empty moves to the following
/// track and asks for it, and once that track is in the sink the next `Tick`
/// does nothing. A worker that is idle or paused never moves on a `Tick`.
pub proof fn lemma_tick_advances_once(worker: WorkerModel)
    requires
        worker.wf(),
        worker.tracks.len() > 0,
    ensures
        worker.status == PlayStatus::Playing ==> worker.spec_step(BackgroundLoopEvent::Tick, true)
            == worker.spec_step(BackgroundLoopEvent::Next, true),
        worker.status == PlayStatus::Playing ==> worker.spec_step(
            BackgroundLoopEvent::Tick,
            true,
        ).0.spec_load_finished(true).spec_step(BackgroundLoopEvent::Tick, false) == (
            worker.spec_step(BackgroundLoopEvent::Tick, true).0,
            WorkerAction::Nothing,
        ),
        worker.spec_step(BackgroundLoopEvent::Tick, false) == (worker, WorkerAction::Nothing),
        worker.status != PlayStatus::Playing ==> worker.spec_step(BackgroundLoopEvent::Tick, true)
            == (worker, WorkerAction::Nothing),
{
}

} // verus!
