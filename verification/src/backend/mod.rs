//! The playback worker: the one party that owns the audio sink. It takes
//! commands in the order in which they were sent, keeps the playback position,
//! and tells the program around it what to do with the sink and which track
//! to open. Opening and decoding a file is left to that program, which
//! reports back whether it succeeded.

pub mod laws;
pub mod sequence;
pub mod shuffle;
pub mod state;

use crate::backend::sequence::{next_index, previous_index};
use crate::backend::shuffle::{check_permutation, generate, is_permutation, resolve, spec_resolve};
use crate::backend::state::{BackgroundLoopEvent, BackgroundState, PlaybackPosition};
use crate::state::{Music, MusicList, MusicView};
use vstd::prelude::*;

verus! {

/// What the worker takes the sink to be doing.
#[derive(Debug, Clone, Copy, PartialEq, Eq, Structural)]
pub enum PlayStatus {
    /// No track was started yet.
    Idle,
    /// A track was started and not paused since.
    Playing,
    /// Playback was paused.
    Paused,
}

/// What the program around the worker has to do after a command.
#[derive(Debug, Clone, Copy, PartialEq, Eq, Structural)]
pub enum WorkerAction {
    /// Leave the sink alone.
    Nothing,
    /// Pause the sink.
    PauseSink,
    /// Let the sink play on.
    ResumeSink,
    /// Open and decode the track at `index`. If that succeeds, empty the
    /// sink's queue first where `interrupt` is set, then let the sink play and
    /// hand it the track. Either way, report the outcome with
    /// [`PlaybackWorker::load_finished`].
    LoadTrack { index: usize, interrupt: bool },
}

/// Why a worker could not be built.
#[derive(Debug, Clone, Copy, PartialEq, Eq, Structural)]
pub enum WorkerError {
    /// The shuffle order is no permutation of the catalog's positions.
    OrderMismatch,
    /// The starting position lies outside the catalog.
    PositionOutOfRange,
}

/// The worker as plain values.
pub struct WorkerModel {
    /// The catalog.
    pub tracks: Seq<MusicView>,
    /// The shuffle order, fixed for the worker's lifetime.
    pub order: Seq<usize>,
    /// Where playback stands.
    pub position: PlaybackPosition,
    /// What the sink is taken to be doing.
    pub status: PlayStatus,
}

/// The position a worker starts from.
pub open spec fn spec_initial_position(
    logical_index: usize,
    shuffle_enabled: bool,
    order: Seq<usize>,
) -> PlaybackPosition {
    PlaybackPosition {
        logical_index,
        physical_index: if order.len() == 0 {
            logical_index
        } else {
            spec_resolve(logical_index as int, shuffle_enabled, order) as usize
        },
        shuffle_enabled,
    }
}

impl WorkerModel {
    /// What holds of every worker: the catalog's positions can be counted in
    /// a `usize`, the shuffle order is a permutation of them, and the position
    /// fits the catalog.
    pub open spec fn wf(self) -> bool {
        &&& self.tracks.len() <= usize::MAX
        &&& is_permutation(self.order, self.tracks.len())
        &&& self.position.valid(self.order)
    }

    /// The worker at `position`, all else unchanged.
    pub open spec fn spec_at(self, position: PlaybackPosition) -> WorkerModel {
        WorkerModel { position, ..self }
    }

    /// The worker with `status`, all else unchanged.
    pub open spec fn spec_in(self, status: PlayStatus) -> WorkerModel {
        WorkerModel { status, ..self }
    }

    /// Moving to `position` and starting the track there: nothing happens in
    /// an empty catalog; otherwise the worker stands at `position` and asks
    /// for its track, which is to interrupt whatever plays.
    pub open spec fn spec_skip_to(self, position: PlaybackPosition) -> (WorkerModel, WorkerAction) {
        if self.tracks.len() == 0 {
            (self, WorkerAction::Nothing)
        } else {
            (
                self.spec_at(position),
                WorkerAction::LoadTrack { index: position.physical_index, interrupt: true },
            )
        }
    }

    /// The worker after `event`, and what it asks for. `sink_empty` says
    /// whether the sink's queue had run empty when the event was taken; only
    /// `Tick` looks at it.
    pub open spec fn spec_step(self, event: BackgroundLoopEvent, sink_empty: bool) -> (
        WorkerModel,
        WorkerAction,
    ) {
        match event {
            BackgroundLoopEvent::Play => if self.tracks.len() == 0 {
                (self, WorkerAction::Nothing)
            } else {
                (
                    self,
                    WorkerAction::LoadTrack {
                        index: self.position.physical_index,
                        interrupt: false,
                    },
                )
            },
            BackgroundLoopEvent::Pause => if self.status == PlayStatus::Playing {
                (self.spec_in(PlayStatus::Paused), WorkerAction::PauseSink)
            } else {
                (self, WorkerAction::Nothing)
            },
            BackgroundLoopEvent::Resume => if self.status == PlayStatus::Paused {
                (self.spec_in(PlayStatus::Playing), WorkerAction::ResumeSink)
            } else {
                (self, WorkerAction::Nothing)
            },
            BackgroundLoopEvent::Next => self.spec_skip_to(self.position.spec_advanced(self.order)),
            BackgroundLoopEvent::Previous => self.spec_skip_to(
                self.position.spec_retreated(self.order),
            ),
            BackgroundLoopEvent::ShuffleToggled(flag) => (
                self.spec_at(self.position.spec_with_shuffle(flag, self.order)),
                WorkerAction::Nothing,
            ),
            BackgroundLoopEvent::Tick => if self.status == PlayStatus::Playing && sink_empty {
                self.spec_skip_to(self.position.spec_advanced(self.order))
            } else {
                (self, WorkerAction::Nothing)
            },
        }
    }

    /// The worker after an attempt to open a track: playing if the track was
    /// started, unchanged if it could not be opened or decoded.
    pub open spec fn spec_load_finished(self, loaded: bool) -> WorkerModel {
        if loaded {
            self.spec_in(PlayStatus::Playing)
        } else {
            self
        }
    }
}

/// The playback worker.
#[derive(Debug)]
pub struct PlaybackWorker {
    music_list: MusicList,
    random_indices: Vec<usize>,
    position: PlaybackPosition,
    status: PlayStatus,
    background_state: BackgroundState,
}

impl View for PlaybackWorker {
    type V = WorkerModel;

    closed spec fn view(&self) -> WorkerModel {
        WorkerModel {
            tracks: self.music_list@,
            order: self.random_indices@,
            position: self.position,
            status: self.status,
        }
    }
}

impl PlaybackWorker {
    #[verifier::type_invariant]
    spec fn well_formed(self) -> bool {
        self@.wf()
    }

    /// Starts a worker for `music_list` at the first position, with a shuffle
    /// order drawn at random, and writes the starting position to
    /// `background_state`.
    pub fn start(music_list: MusicList, shuffle_enabled: bool, background_state: BackgroundState) -> (worker:
        PlaybackWorker)
        ensures
            worker@.wf(),
            worker@.tracks == music_list@,
            worker@.status == PlayStatus::Idle,
            worker@.position == spec_initial_position(0, shuffle_enabled, worker@.order),
    {
        let order = generate(music_list.len());
        let physical_index = if music_list.len() == 0 {
            0
        } else {
            resolve(0, shuffle_enabled, &order)
        };
        let position = PlaybackPosition { logical_index: 0, physical_index, shuffle_enabled };
        background_state.publish(position);
        PlaybackWorker {
            music_list,
            random_indices: order,
            position,
            status: PlayStatus::Idle,
            background_state,
        }
    }

    /// Builds a worker for `music_list` with the given shuffle order and
    /// starting position, and writes the position to `background_state`.
    /// The order has to be a permutation of the catalog's positions, and in a
    /// catalog that is not empty the starting position has to lie inside it.
    pub fn with_order(
        music_list: MusicList,
        order: Vec<usize>,
        logical_index: usize,
        shuffle_enabled: bool,
        background_state: BackgroundState,
    ) -> (built: Result<PlaybackWorker, WorkerError>)
        ensures
            built matches Err(WorkerError::OrderMismatch) <==> !is_permutation(
                order@,
                music_list@.len(),
            ),
            built matches Err(WorkerError::PositionOutOfRange) <==> is_permutation(
                order@,
                music_list@.len(),
            ) && music_list@.len() > 0 && logical_index >= music_list@.len(),
            built matches Ok(worker) ==> worker@ == (WorkerModel {
                tracks: music_list@,
                order: order@,
                position: spec_initial_position(logical_index, shuffle_enabled, order@),
                status: PlayStatus::Idle,
            }) && worker@.wf(),
    {
        let count = music_list.len();
        if !check_permutation(&order, count) {
            return Err(WorkerError::OrderMismatch);
        }
        if count > 0 && logical_index >= count {
            return Err(WorkerError::PositionOutOfRange);
        }
        let physical_index = if count == 0 {
            logical_index
        } else {
            resolve(logical_index, shuffle_enabled, &order)
        };
        let position = PlaybackPosition { logical_index, physical_index, shuffle_enabled };
        background_state.publish(position);
        Ok(
            PlaybackWorker {
                music_list,
                random_indices: order,
                position,
                status: PlayStatus::Idle,
                background_state,
            },
        )
    }

    /// Where playback stands.
    pub fn position(&self) -> (position: PlaybackPosition)
        ensures
            position == self@.position,
            self@.wf(),
    {
        proof {
            use_type_invariant(self);
        }
        self.position
    }

    /// What the sink is taken to be doing.
    pub fn status(&self) -> (status: PlayStatus)
        ensures
            status == self@.status,
    {
        self.status
    }

    /// The number of tracks in the catalog.
    pub fn track_count(&self) -> (count: usize)
        ensures
            count == self@.tracks.len(),
    {
        self.music_list.len()
    }

    /// The track at `index` of the catalog, if there is one.
    pub fn track(&self, index: usize) -> (track: Option<&Music>)
        ensures
            index < self@.tracks.len() ==> (track matches Some(music) && music@
                == self@.tracks[index as int]),
            index >= self@.tracks.len() ==> track is None,
    {
        self.music_list.get(index)
    }

    /// The shuffle order.
    pub fn order(&self) -> (order: &Vec<usize>)
        ensures
            order@ == self@.order,
            is_permutation(order@, self@.tracks.len()),
    {
        proof {
            use_type_invariant(self);
        }
        &self.random_indices
    }

    /// Takes one command and says what to do with the sink. `sink_empty`
    /// tells whether the sink's queue has run empty; only `Tick` looks at it.
    /// The new position is written to the shared cells before the call
    /// returns.
    pub fn handle_event(&mut self, event: BackgroundLoopEvent, sink_empty: bool) -> (action:
        WorkerAction)
        ensures
            final(self)@ == old(self)@.spec_step(event, sink_empty).0,
            action == old(self)@.spec_step(event, sink_empty).1,
            final(self)@.wf(),
    {
        proof {
            use_type_invariant(&*self);
        }
        let count = self.music_list.len();
        let action = match event {
            BackgroundLoopEvent::Play => {
                if count == 0 {
                    WorkerAction::Nothing
                } else {
                    WorkerAction::LoadTrack { index: self.position.physical_index, interrupt: false }
                }
            },
            BackgroundLoopEvent::Pause => {
                if self.status == PlayStatus::Playing {
                    self.status = PlayStatus::Paused;
                    WorkerAction::PauseSink
                } else {
                    WorkerAction::Nothing
                }
            },
            BackgroundLoopEvent::Resume => {
                if self.status == PlayStatus::Paused {
                    self.status = PlayStatus::Playing;
                    WorkerAction::ResumeSink
                } else {
                    WorkerAction::Nothing
                }
            },
            BackgroundLoopEvent::Next => self.skip(true),
            BackgroundLoopEvent::Previous => self.skip(false),
            BackgroundLoopEvent::ShuffleToggled(flag) => {
                let physical_index = if count == 0 {
                    self.position.physical_index
                } else {
                    resolve(self.position.logical_index, flag, &self.random_indices)
                };
                self.position = PlaybackPosition {
                    logical_index: self.position.logical_index,
                    physical_index,
                    shuffle_enabled: flag,
                };
                WorkerAction::Nothing
            },
            BackgroundLoopEvent::Tick => {
                if self.status == PlayStatus::Playing && sink_empty {
                    self.skip(true)
                } else {
                    WorkerAction::Nothing
                }
            },
        };
        self.background_state.publish(self.position);
        action
    }

    /// Moves one step, forward or backward, and asks for the track there.
    fn skip(&mut self, forward: bool) -> (action: WorkerAction)
        ensures
            final(self)@ == old(self)@.spec_skip_to(
                if forward {
                    old(self)@.position.spec_advanced(old(self)@.order)
                } else {
                    old(self)@.position.spec_retreated(old(self)@.order)
                },
            ).0,
            action == old(self)@.spec_skip_to(
                if forward {
                    old(self)@.position.spec_advanced(old(self)@.order)
                } else {
                    old(self)@.position.spec_retreated(old(self)@.order)
                },
            ).1,
    {
        proof {
            use_type_invariant(&*self);
        }
        let count = self.music_list.len();
        if count == 0 {
            return WorkerAction::Nothing;
        }
        let logical_index = if forward {
            next_index(self.position.logical_index, count)
        } else {
            previous_index(self.position.logical_index, count)
        };
        let physical_index = resolve(
            logical_index,
            self.position.shuffle_enabled,
            &self.random_indices,
        );
        self.position = PlaybackPosition {
            logical_index,
            physical_index,
            shuffle_enabled: self.position.shuffle_enabled,
        };
        WorkerAction::LoadTrack { index: physical_index, interrupt: true }
    }

    /// Takes the outcome of opening the track that the last action asked for.
    /// A track that was started makes the worker playing; one that could not
    /// be opened or decoded leaves the worker as it was, ready for the next
    /// command.
    pub fn load_finished(&mut self, loaded: bool)
        ensures
            final(self)@ == old(self)@.spec_load_finished(loaded),
            final(self)@.wf(),
    {
        proof {
            use_type_invariant(&*self);
        }
        if loaded {
            self.status = PlayStatus::Playing;
        }
    }
}

} // verus!
