//! The commands a worker takes, the playback position, and the cells through
//! which the position is shared with the foreground.

use crate::backend::sequence::{spec_next_index, spec_previous_index};
use crate::backend::shuffle::spec_resolve;
use std::sync::atomic::{AtomicBool, AtomicUsize};
use std::sync::Arc;
use vstd::prelude::*;

verus! {

/// A command for the playback worker. Commands are handled one at a time, in
/// the order in which they were sent.
#[derive(Debug, Clone, Copy, PartialEq, Eq, Structural)]
pub enum BackgroundLoopEvent {
    /// Start the track at the current position.
    Play,
    /// Pause what is playing.
    Pause,
    /// Go on with what was paused.
    Resume,
    /// Move to the following track and start it.
    Next,
    /// Move to the preceding track and start it.
    Previous,
    /// Switch shuffle mode on or off.
    ShuffleToggled(bool),
    /// Nothing was sent for a while: look whether the track has ended.
    Tick,
}

impl BackgroundLoopEvent {
    /// The event a worker handles next: the command it received, or `Tick`
    /// where none was pending when the wait ran out. A `Tick` of the
    /// worker's own thus never overtakes a command.
    pub fn or_tick(received: Option<BackgroundLoopEvent>) -> (event: BackgroundLoopEvent)
        ensures
            event == match received {
                Some(command) => command,
                None => BackgroundLoopEvent::Tick,
            },
    {
        match received {
            Some(command) => command,
            None => BackgroundLoopEvent::Tick,
        }
    }
}

/// Where playback stands in the catalog.
#[derive(Debug, Clone, Copy, PartialEq, Eq, Structural)]
pub struct PlaybackPosition {
    /// The position that `Next` and `Previous` move, whatever the shuffle mode.
    pub logical_index: usize,
    /// The track that is handed to the decoder.
    pub physical_index: usize,
    /// Whether the shuffle order maps positions to tracks.
    pub shuffle_enabled: bool,
}

impl PlaybackPosition {
    /// Whether the position fits a catalog whose shuffle order is `order`: in
    /// a catalog that is not empty, the logical index lies inside it and the
    /// physical index is the track it stands for.
    pub open spec fn valid(self, order: Seq<usize>) -> bool {
        order.len() > 0 ==> {
            &&& self.logical_index < order.len()
            &&& self.physical_index == spec_resolve(
                self.logical_index as int,
                self.shuffle_enabled,
                order,
            )
        }
    }

    /// The position with the logical index set to `logical_index` and the
    /// physical index resolved anew.
    pub open spec fn spec_moved_to(self, logical_index: int, order: Seq<usize>) -> Self {
        PlaybackPosition {
            logical_index: logical_index as usize,
            physical_index: spec_resolve(logical_index, self.shuffle_enabled, order) as usize,
            shuffle_enabled: self.shuffle_enabled,
        }
    }

    /// The position one step forward; unchanged in an empty catalog.
    pub open spec fn spec_advanced(self, order: Seq<usize>) -> Self {
        if order.len() == 0 {
            self
        } else {
            self.spec_moved_to(spec_next_index(self.logical_index as int, order.len() as int), order)
        }
    }

    /// The position one step backward; unchanged in an empty catalog.
    pub open spec fn spec_retreated(self, order: Seq<usize>) -> Self {
        if order.len() == 0 {
            self
        } else {
            self.spec_moved_to(
                spec_previous_index(self.logical_index as int, order.len() as int),
                order,
            )
        }
    }

    /// The position with shuffle mode set to `flag`: the logical index stays,
    /// and in a catalog that is not empty the physical index is resolved anew.
    pub open spec fn spec_with_shuffle(self, flag: bool, order: Seq<usize>) -> Self {
        PlaybackPosition {
            logical_index: self.logical_index,
            physical_index: if order.len() == 0 {
                self.physical_index
            } else {
                spec_resolve(self.logical_index as int, flag, order) as usize
            },
            shuffle_enabled: flag,
        }
    }

    /// The position after `steps` steps forward.
    pub open spec fn spec_advanced_by(self, order: Seq<usize>, steps: nat) -> Self
        decreases steps,
    {
        if steps == 0 {
            self
        } else {
            self.spec_advanced_by(order, (steps - 1) as nat).spec_advanced(order)
        }
    }
}

/// What the foreground can take from a physical index that it read from the
/// shared cells: the index itself where it names a track of a catalog of
/// `track_count` tracks, nothing otherwise.
pub open spec fn spec_readback(physical_index: usize, track_count: usize) -> Option<usize> {
    if physical_index < track_count {
        Some(physical_index)
    } else {
        None
    }
}

/// Checks a physical index read from the shared cells against the catalog.
pub fn readback(physical_index: usize, track_count: usize) -> (current: Option<usize>)
    ensures
        current == spec_readback(physical_index, track_count),
{
    if physical_index < track_count {
        Some(physical_index)
    } else {
        None
    }
}

/// The playback position as the worker and the foreground share it: three
/// cells, each read and written on its own, without a lock.
#[derive(Debug, Clone)]
pub struct BackgroundState {
    /// The logical index.
    pub current_index: Arc<AtomicUsize>,
    /// The physical index.
    pub current_music_index: Arc<AtomicUsize>,
    /// Whether shuffle mode is on.
    pub is_random_mode: Arc<AtomicBool>,
}

impl BackgroundState {
    /// Fresh cells that hold `position`.
    pub fn new(position: PlaybackPosition) -> (state: BackgroundState) {
        BackgroundState {
            current_index: Arc::new(AtomicUsize::new(position.logical_index)),
            current_music_index: Arc::new(AtomicUsize::new(position.physical_index)),
            is_random_mode: Arc::new(AtomicBool::new(position.shuffle_enabled)),
        }
    }

    /// Writes `position` to the cells, each with release ordering. The
    /// physical index is written last, and it is the only cell the
    /// foreground reads.
    pub fn publish(&self, position: PlaybackPosition) {
        self.is_random_mode.store(position.shuffle_enabled, std::sync::atomic::Ordering::Release);
        self.current_index.store(position.logical_index, std::sync::atomic::Ordering::Release);
        self.current_music_index.store(
            position.physical_index,
            std::sync::atomic::Ordering::Release,
        );
    }

    /// Reads the three cells, each with acquire ordering. Another thread may
    /// write between two of the reads, so nothing ties the three values
    /// together.
    pub fn snapshot(&self) -> (position: PlaybackPosition) {
        PlaybackPosition {
            logical_index: self.current_index.load(std::sync::atomic::Ordering::Acquire),
            physical_index: self.current_music_index.load(std::sync::atomic::Ordering::Acquire),
            shuffle_enabled: self.is_random_mode.load(std::sync::atomic::Ordering::Acquire),
        }
    }

    /// The track that is playing, for a catalog of `track_count` tracks:
    /// nothing for an empty catalog, and never an index outside the catalog.
    pub fn current_physical_index(&self, track_count: usize) -> (current: Option<usize>)
        ensures
            track_count == 0 ==> current is None,
            current matches Some(index) ==> index < track_count,
    {
        let index = self.current_music_index.load(std::sync::atomic::Ordering::Acquire);
        readback(index, track_count)
    }
}

} // verus!
