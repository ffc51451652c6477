//! The foreground of the player: what it shows, how it follows the user's
//! actions, and what it asks of the program around it. The foreground never
//! waits for the worker: it sends commands, and reads the track that plays
//! from the shared cells on a timer.

use crate::backend::state::{BackgroundLoopEvent, BackgroundState, PlaybackPosition};
use crate::config::{Config, ConfigView};
use crate::file::{spec_catalog, spec_listing, FileInfo};
use crate::state::{MainState, MainStateView, MusicList, MusicView};
use std::time::Instant;
use vstd::prelude::*;
use vstd::string::StringExecFns;

verus! {

/// `std::time::Instant`, the moment a timer fired. The library carries it
/// and never looks inside.
#[verifier::external_type_specification]
#[verifier::external_body]
pub struct ExInstant(Instant);

/// Something the user did, or the timer that refreshes the display.
#[derive(Debug)]
pub enum ForegroundEvent {
    /// The button that pauses and resumes was pressed.
    ResumeOrPausePressed,
    /// The button for the following track was pressed.
    NextPressed,
    /// The button for the preceding track was pressed.
    PreviousPressed,
    /// The user opens the settings.
    OpenSettingModal,
    /// The user closes the settings.
    CloseSettingModal,
    /// The music directory was typed in or picked.
    MusicDirectoryInputChanged(String),
    /// The user asks for the directory dialog.
    ChooseMusicDirectory,
    /// The shuffle switch was flipped.
    RandomToggled(bool),
    /// The refresh timer fired.
    Tick(Instant),
}

impl Clone for ForegroundEvent {
    fn clone(&self) -> (copy: Self)
        ensures
            copy == *self,
    {
        match self {
            ForegroundEvent::ResumeOrPausePressed => ForegroundEvent::ResumeOrPausePressed,
            ForegroundEvent::NextPressed => ForegroundEvent::NextPressed,
            ForegroundEvent::PreviousPressed => ForegroundEvent::PreviousPressed,
            ForegroundEvent::OpenSettingModal => ForegroundEvent::OpenSettingModal,
            ForegroundEvent::CloseSettingModal => ForegroundEvent::CloseSettingModal,
            ForegroundEvent::MusicDirectoryInputChanged(text) => {
                ForegroundEvent::MusicDirectoryInputChanged(text.clone())
            },
            ForegroundEvent::ChooseMusicDirectory => ForegroundEvent::ChooseMusicDirectory,
            ForegroundEvent::RandomToggled(flag) => ForegroundEvent::RandomToggled(*flag),
            ForegroundEvent::Tick(instant) => ForegroundEvent::Tick(*instant),
        }
    }
}

/// What the program around the foreground has to do after an event. The
/// parts are independent; where several are set, the settings are saved
/// first.
#[derive(Debug, Clone, Copy, PartialEq, Eq)]
pub struct ForegroundAction {
    /// The command to send to the worker, if any. Sending never blocks, and
    /// a closed channel is reported and otherwise ignored.
    pub send: Option<BackgroundLoopEvent>,
    /// Whether to write the settings to the settings file.
    pub save_config: bool,
    /// Whether to list the music directory anew, hand the listing to
    /// [`MainApp::update_music_list_from_config`], and start a new worker
    /// for the new catalog: a worker keeps the catalog it was started with.
    pub reload_catalog: bool,
    /// Whether to open the directory dialog. A directory that was picked
    /// comes back as [`ForegroundEvent::MusicDirectoryInputChanged`].
    pub choose_directory: bool,
}

/// The foreground as plain values.
pub struct MainAppView {
    pub main_state: MainStateView,
    pub config_data: ConfigView,
    pub show_setting_modal: bool,
    /// The cells that the foreground shares with its worker. No event
    /// replaces them.
    pub background_state: BackgroundState,
}

/// The action that asks for nothing.
pub open spec fn spec_no_action() -> ForegroundAction {
    ForegroundAction { send: None, save_config: false, reload_catalog: false, choose_directory: false }
}

/// The action that only sends `event` to the worker.
pub open spec fn spec_send(event: BackgroundLoopEvent) -> ForegroundAction {
    ForegroundAction { send: Some(event), ..spec_no_action() }
}

impl MainAppView {
    /// The foreground with `main_state`, all else unchanged.
    pub open spec fn spec_showing(self, main_state: MainStateView) -> MainAppView {
        MainAppView { main_state, ..self }
    }

    /// The foreground with `config_data`, all else unchanged.
    pub open spec fn spec_configured(self, config_data: ConfigView) -> MainAppView {
        MainAppView { config_data, ..self }
    }

    /// The foreground after `message`, and what it asks for. `current` is
    /// the track that plays, as read from the shared cells; only `Tick`
    /// looks at it.
    pub open spec fn spec_apply(self, message: ForegroundEvent, current: Option<usize>) -> (
        MainAppView,
        ForegroundAction,
    ) {
        match message {
            ForegroundEvent::ResumeOrPausePressed => (
                self.spec_showing(
                    MainStateView { on_play: !self.main_state.on_play, ..self.main_state },
                ),
                spec_send(
                    if self.main_state.on_play {
                        BackgroundLoopEvent::Pause
                    } else {
                        BackgroundLoopEvent::Resume
                    },
                ),
            ),
            ForegroundEvent::NextPressed => (self, spec_send(BackgroundLoopEvent::Next)),
            ForegroundEvent::PreviousPressed => (self, spec_send(BackgroundLoopEvent::Previous)),
            ForegroundEvent::OpenSettingModal => (
                MainAppView { show_setting_modal: true, ..self },
                spec_no_action(),
            ),
            ForegroundEvent::CloseSettingModal => (
                MainAppView { show_setting_modal: false, ..self },
                spec_no_action(),
            ),
            ForegroundEvent::MusicDirectoryInputChanged(text) => (
                self.spec_configured(ConfigView { directory_path: text@, ..self.config_data }),
                ForegroundAction { save_config: true, reload_catalog: true, ..spec_no_action() },
            ),
            ForegroundEvent::ChooseMusicDirectory => (
                self,
                ForegroundAction { choose_directory: true, ..spec_no_action() },
            ),
            ForegroundEvent::RandomToggled(flag) => (
                self.spec_configured(ConfigView { is_random: flag, ..self.config_data }),
                ForegroundAction {
                    send: Some(BackgroundLoopEvent::ShuffleToggled(flag)),
                    save_config: true,
                    ..spec_no_action()
                },
            ),
            ForegroundEvent::Tick(_) => (
                match current {
                    Some(index) if index < self.main_state.music_list.len() => self.spec_showing(
                        MainStateView {
                            title: self.main_state.music_list[index as int].title,
                            ..self.main_state
                        },
                    ),
                    _ => self,
                },
                spec_no_action(),
            ),
        }
    }

    /// The foreground with the catalog that `listing` gives: the tracks of
    /// the listing's music files, or no tracks where the directory could not
    /// be listed.
    pub open spec fn spec_with_catalog(self, listing: Option<Vec<FileInfo>>) -> MainAppView {
        self.spec_showing(
            MainStateView {
                music_list: match listing {
                    Some(files) => spec_catalog(spec_listing(files@)),
                    None => Seq::empty(),
                },
                ..self.main_state
            },
        )
    }
}

/// The label of the button that pauses and resumes: the pause sign while the
/// player counts as playing, the play sign otherwise.
pub open spec fn spec_play_button_label(on_play: bool) -> Seq<char> {
    if on_play {
        "||"@
    } else {
        ">>"@
    }
}

/// The label of the button that pauses and resumes.
pub fn play_button_label(on_play: bool) -> (label: &'static str)
    ensures
        label@ == spec_play_button_label(on_play),
{
    if on_play {
        "||"
    } else {
        ">>"
    }
}

/// What the settings say about the music directory that was typed in:
/// nothing about an empty input or a directory that is there, and otherwise
/// what is wrong with the path.
pub open spec fn spec_directory_error_message(
    directory_path: Seq<char>,
    exists: bool,
    is_directory: bool,
) -> Seq<char> {
    if directory_path.len() == 0 {
        ""@
    } else if !exists {
        "path is not exists"@
    } else if !is_directory {
        "path is not directory"@
    } else {
        ""@
    }
}

/// The message under the input for the music directory. `exists` and
/// `is_directory` say what the file system holds at `directory_path`.
pub fn directory_error_message(directory_path: &str, exists: bool, is_directory: bool) -> (message:
    &'static str)
    ensures
        message@ == spec_directory_error_message(directory_path@, exists, is_directory),
{
    if directory_path.is_empty() {
        ""
    } else if !exists {
        "path is not exists"
    } else if !is_directory {
        "path is not directory"
    } else {
        ""
    }
}

/// The foreground of the player.
#[derive(Debug)]
pub struct MainApp {
    main_state: MainState,
    config_data: Config,
    show_setting_modal: bool,
    background_state: BackgroundState,
}

impl View for MainApp {
    type V = MainAppView;

    closed spec fn view(&self) -> MainAppView {
        MainAppView {
            main_state: self.main_state@,
            config_data: self.config_data@,
            show_setting_modal: self.show_setting_modal,
            background_state: self.background_state,
        }
    }
}

impl MainApp {
    /// The foreground at the start of a session: the settings are
    /// `config_data`, the catalog is what `listing` gives, no title is shown
    /// yet, the player counts as playing, and the settings are closed. The
    /// shared cells start at the first position, with the shuffle mode of the
    /// settings.
    pub fn new(config_data: Config, listing: Option<Vec<FileInfo>>) -> (app: MainApp)
        ensures
            app@ == (MainAppView {
                main_state: MainStateView {
                    title: "no music"@,
                    music_list: Seq::empty(),
                    on_play: true,
                },
                config_data: config_data@,
                show_setting_modal: false,
                background_state: app@.background_state,
            }).spec_with_catalog(listing),
    {
        let background_state = BackgroundState::new(
            PlaybackPosition {
                logical_index: 0,
                physical_index: 0,
                shuffle_enabled: config_data.is_random,
            },
        );
        let mut app = MainApp {
            main_state: MainState {
                title: String::from_str("no music"),
                music_list: MusicList::default(),
                on_play: true,
            },
            config_data,
            show_setting_modal: false,
            background_state,
        };
        app.update_music_list_from_config(listing);
        app
    }

    /// Replaces the catalog on display by what `listing` gives. A directory
    /// that could not be listed gives an empty catalog.
    pub fn update_music_list_from_config(&mut self, listing: Option<Vec<FileInfo>>)
        ensures
            final(self)@ == old(self)@.spec_with_catalog(listing),
    {
        match listing {
            Some(files) => {
                self.main_state.music_list = MusicList::from_files(&files);
            },
            None => {
                self.main_state.music_list = MusicList::default();
                assert(self.main_state.music_list@ =~= Seq::empty());
            },
        }
    }

    /// Takes one event, with the track that plays read from the shared
    /// cells. Whatever was read, the result is what [`MainApp::apply`] gives
    /// for some track of the catalog or for none.
    pub fn update(&mut self, message: ForegroundEvent) -> (action: ForegroundAction)
        ensures
            exists|current: Option<usize>|
                (final(self)@, action) == #[trigger] old(self)@.spec_apply(message, current),
    {
        let current = self.current_physical_index();
        self.apply(message, current)
    }

    /// Takes one event. `current` is the track that plays; only `Tick`
    /// looks at it, and shows that track's title if the catalog has it.
    pub fn apply(&mut self, message: ForegroundEvent, current: Option<usize>) -> (action:
        ForegroundAction)
        ensures
            (final(self)@, action) == old(self)@.spec_apply(message, current),
    {
        let nothing = ForegroundAction {
            send: None,
            save_config: false,
            reload_catalog: false,
            choose_directory: false,
        };
        match message {
            ForegroundEvent::ResumeOrPausePressed => {
                let event = if self.main_state.on_play {
                    BackgroundLoopEvent::Pause
                } else {
                    BackgroundLoopEvent::Resume
                };
                self.main_state.on_play = !self.main_state.on_play;
                ForegroundAction { send: Some(event), ..nothing }
            },
            ForegroundEvent::NextPressed => ForegroundAction {
                send: Some(BackgroundLoopEvent::Next),
                ..nothing
            },
            ForegroundEvent::PreviousPressed => ForegroundAction {
                send: Some(BackgroundLoopEvent::Previous),
                ..nothing
            },
            ForegroundEvent::OpenSettingModal => {
                self.show_setting_modal = true;
                nothing
            },
            ForegroundEvent::CloseSettingModal => {
                self.show_setting_modal = false;
                nothing
            },
            ForegroundEvent::MusicDirectoryInputChanged(text) => {
                self.config_data.directory_path = text;
                ForegroundAction { save_config: true, reload_catalog: true, ..nothing }
            },
            ForegroundEvent::ChooseMusicDirectory => ForegroundAction {
                choose_directory: true,
                ..nothing
            },
            ForegroundEvent::RandomToggled(flag) => {
                self.config_data.is_random = flag;
                ForegroundAction {
                    send: Some(BackgroundLoopEvent::ShuffleToggled(flag)),
                    save_config: true,
                    ..nothing
                }
            },
            ForegroundEvent::Tick(_) => {
                match current {
                    Some(index) => {
                        match self.main_state.music_list.get(index) {
                            Some(music) => {
                                self.main_state.title = music.title.clone();
                            },
                            None => {},
                        }
                    },
                    None => {},
                }
                nothing
            },
        }
    }

    /// The command for a worker that was just started: play the track at
    /// its position.
    pub fn startup_event(&self) -> (event: BackgroundLoopEvent)
        ensures
            event == BackgroundLoopEvent::Play,
    {
        BackgroundLoopEvent::Play
    }

    /// What is on display.
    pub fn main_state(&self) -> (main_state: &MainState)
        ensures
            main_state@ == self@.main_state,
    {
        &self.main_state
    }

    /// The settings.
    pub fn config_data(&self) -> (config_data: &Config)
        ensures
            config_data@ == self@.config_data,
    {
        &self.config_data
    }

    /// Whether the settings are open.
    pub fn show_setting_modal(&self) -> (shown: bool)
        ensures
            shown == self@.show_setting_modal,
    {
        self.show_setting_modal
    }

    /// The cells through which the worker tells which track plays: the
    /// foreground's own, the same from its start to its end.
    pub fn background_state(&self) -> (background_state: &BackgroundState)
        ensures
            *background_state == self@.background_state,
    {
        &self.background_state
    }

    /// The track that plays, as the shared cells tell it: nothing while the
    /// catalog is empty, and never an index outside the catalog.
    pub fn current_physical_index(&self) -> (current: Option<usize>)
        ensures
            self@.main_state.music_list.len() == 0 ==> current is None,
            current matches Some(index) ==> index < self@.main_state.music_list.len(),
    {
        self.background_state.current_physical_index(self.main_state.music_list.len())
    }
}

} // verus!
