//! The catalog of tracks and what the foreground shows of the player.

use vstd::prelude::*;

verus! {

/// What a track is made of, as plain values.
pub struct MusicView {
    pub title: Seq<char>,
    pub file_path: Seq<char>,
}

/// One track of the catalog: the title to show and the file to play.
#[derive(Debug)]
pub struct Music {
    pub title: String,
    pub file_path: String,
}

impl View for Music {
    type V = MusicView;

    open spec fn view(&self) -> MusicView {
        MusicView { title: self.title@, file_path: self.file_path@ }
    }
}

impl Clone for Music {
    fn clone(&self) -> (copy: Self)
        ensures
            copy@ == self@,
    {
        Music { title: self.title.clone(), file_path: self.file_path.clone() }
    }
}

impl Default for Music {
    fn default() -> (music: Self)
        ensures
            music@.title.len() == 0,
            music@.file_path.len() == 0,
    {
        Music { title: String::new(), file_path: String::new() }
    }
}

/// The catalog: the tracks in the order in which the directory listed them.
/// A position in the catalog names the same track for as long as the
/// catalog lives.
#[derive(Debug)]
pub struct MusicList {
    pub list: Vec<Music>,
}

impl View for MusicList {
    type V = Seq<MusicView>;

    open spec fn view(&self) -> Seq<MusicView> {
        Seq::new(self.list@.len(), |i: int| self.list@[i]@)
    }
}

impl Clone for MusicList {
    fn clone(&self) -> (copy: Self)
        ensures
            copy@ == self@,
    {
        let mut list: Vec<Music> = Vec::new();
        let mut i: usize = 0;
        while i < self.list.len()
            invariant
                i <= self.list@.len(),
                list@.len() == i,
                forall|j: int| 0 <= j < i ==> #[trigger] list@[j]@ == self.list@[j]@,
            decreases self.list@.len() - i,
        {
            list.push(self.list[i].clone());
            i = i + 1;
        }
        MusicList { list }
    }
}

impl Default for MusicList {
    fn default() -> (music_list: Self)
        ensures
            music_list@.len() == 0,
    {
        MusicList { list: Vec::new() }
    }
}

/// What the foreground shows of the player.
#[derive(Debug)]
pub struct MainState {
    /// The title of the track that plays.
    pub title: String,
    /// The catalog on display.
    pub music_list: MusicList,
    /// Whether the foreground takes the player to be playing. The flag
    /// follows the commands that were sent, not what the worker did with them.
    pub on_play: bool,
}

/// What the foreground shows, as plain values.
pub struct MainStateView {
    pub title: Seq<char>,
    pub music_list: Seq<MusicView>,
    pub on_play: bool,
}

impl View for MainState {
    type V = MainStateView;

    open spec fn view(&self) -> MainStateView {
        MainStateView { title: self.title@, music_list: self.music_list@, on_play: self.on_play }
    }
}

impl Clone for MainState {
    fn clone(&self) -> (copy: Self)
        ensures
            copy@ == self@,
    {
        MainState {
            title: self.title.clone(),
            music_list: self.music_list.clone(),
            on_play: self.on_play,
        }
    }
}

impl MusicList {
    /// Whether the catalog holds at least one track.
    pub fn is_not_empty(&self) -> (not_empty: bool)
        ensures
            not_empty == (self@.len() > 0),
    {
        !self.list.is_empty()
    }

    /// The number of tracks.
    pub fn len(&self) -> (count: usize)
        ensures
            count == self@.len(),
    {
        self.list.len()
    }

    /// The track at `index`, if the catalog has one there.
    pub fn get(&self, index: usize) -> (track: Option<&Music>)
        ensures
            index < self@.len() ==> (track matches Some(music) && music@ == self@[index as int]),
            index >= self@.len() ==> track is None,
    {
        if index < self.list.len() {
            Some(&self.list[index])
        } else {
            None
        }
    }
}

} // verus!
