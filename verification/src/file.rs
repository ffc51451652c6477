//! Files found in the music directory, and which of them are tracks.

use crate::state::{Music, MusicList, MusicView};
use vstd::prelude::*;

verus! {

/// A directory entry as plain values.
pub struct FileInfoView {
    pub filename: Seq<char>,
    pub filepath: Seq<char>,
}

/// A regular file of the music directory: its name and its full path.
#[derive(Debug)]
pub struct FileInfo {
    pub filename: String,
    pub filepath: String,
}

impl View for FileInfo {
    type V = FileInfoView;

    open spec fn view(&self) -> FileInfoView {
        FileInfoView { filename: self.filename@, filepath: self.filepath@ }
    }
}

impl Clone for FileInfo {
    fn clone(&self) -> (copy: Self)
        ensures
            copy@ == self@,
    {
        FileInfo { filename: self.filename.clone(), filepath: self.filepath.clone() }
    }
}

/// The extension that `std::path::Path::extension` finds in `path`: the part
/// of the path's file name after its last dot, if the file name has one that
/// is not its first character.
pub uninterp spec fn spec_path_extension(path: Seq<char>) -> Option<Seq<char>>;

/// Calls `std::path::Path::extension` on `path` and hands the extension back
/// as a string. The extension of a path that is valid UTF-8 is valid UTF-8
/// itself, so the conversion loses nothing.
#[verifier::external_body]
fn path_extension(path: &str) -> (extension: Option<String>)
    ensures
        match extension {
            Some(found) => spec_path_extension(path@) == Some(found@),
            None => spec_path_extension(path@) is None,
        },
{
    let extension = std::path::Path::new(path).extension()?;
    Some(extension.to_str()?.to_owned())
}

/// Whether `extension` is one of the audio formats the player takes: `mp3`
/// or `ogg`, in lower case.
pub open spec fn spec_is_music_extension(extension: Option<Seq<char>>) -> bool {
    extension == Some("mp3"@) || extension == Some("ogg"@)
}

/// The view of an extension that may be missing.
pub open spec fn spec_extension_view(extension: Option<&String>) -> Option<Seq<char>> {
    match extension {
        Some(found) => Some(found@),
        None => None,
    }
}

/// Tells whether a file with this extension is a track.
pub fn is_music_extension(extension: Option<&String>) -> (is_music: bool)
    ensures
        is_music == spec_is_music_extension(spec_extension_view(extension)),
{
    match extension {
        Some(found) => {
            let mp3 = "mp3".to_owned();
            let ogg = "ogg".to_owned();
            *found == mp3 || *found == ogg
        },
        None => false,
    }
}

/// The track that a file stands for, if it is a music file: its name is the
/// title, its path the file to play.
pub open spec fn spec_track_of(file: FileInfoView) -> Option<MusicView> {
    if spec_is_music_extension(spec_path_extension(file.filepath)) {
        Some(MusicView { title: file.filename, file_path: file.filepath })
    } else {
        None
    }
}

/// The catalog that a directory listing gives: the tracks of its music
/// files, in the order of the listing.
pub open spec fn spec_catalog(files: Seq<FileInfoView>) -> Seq<MusicView> {
    files.filter_map(|file: FileInfoView| spec_track_of(file))
}

/// The views of the files of a listing.
pub open spec fn spec_listing(files: Seq<FileInfo>) -> Seq<FileInfoView> {
    Seq::new(files.len(), |i: int| files[i]@)
}

impl FileInfo {
    /// Whether the file is a track: whether the extension of its path is one
    /// of the audio formats the player takes.
    pub fn is_music_file(&self) -> (is_music: bool)
        ensures
            is_music == spec_is_music_extension(spec_path_extension(self.filepath@)),
            is_music == spec_track_of(self@).is_some(),
    {
        let extension = path_extension(self.filepath.as_str());
        is_music_extension(extension.as_ref())
    }
}

impl MusicList {
    /// Builds the catalog from a directory listing: every music file becomes
    /// a track, and the tracks keep the order of the listing.
    pub fn from_files(files: &Vec<FileInfo>) -> (music_list: MusicList)
        ensures
            music_list@ == spec_catalog(spec_listing(files@)),
    {
        let ghost listing = spec_listing(files@);
        let ghost track_of = |file: FileInfoView| spec_track_of(file);
        let mut list: Vec<Music> = Vec::new();
        let mut i: usize = 0;
        while i < files.len()
            invariant
                i <= files@.len(),
                listing == spec_listing(files@),
                track_of == |file: FileInfoView| spec_track_of(file),
                (MusicList { list })@ == listing.take(i as int).filter_map(track_of),
            decreases files@.len() - i,
        {
            let file = &files[i];
            proof {
                listing.lemma_filter_map_take_succ(track_of, i as int);
            }
            if file.is_music_file() {
                list.push(Music { title: file.filename.clone(), file_path: file.filepath.clone() });
            }
            i = i + 1;
        }
        assert(listing.take(files@.len() as int) =~= listing);
        MusicList { list }
    }
}

} // verus!
