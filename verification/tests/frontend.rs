use musica::backend::state::{BackgroundLoopEvent, PlaybackPosition};
use musica::config::Config;
use musica::file::FileInfo;
use musica::frontend::{
    directory_error_message, play_button_label, ForegroundAction, ForegroundEvent, MainApp,
};
use std::time::Instant;

fn file(name: &str) -> FileInfo {
    FileInfo { filename: name.to_string(), filepath: format!("/music/{name}") }
}

fn listing() -> Option<Vec<FileInfo>> {
    Some(vec![file("a.mp3"), file("notes.txt"), file("b.ogg"), file("c.mp3")])
}

fn config(is_random: bool) -> Config {
    Config { is_random, directory_path: "/music".to_string() }
}

fn nothing() -> ForegroundAction {
    ForegroundAction { send: None, save_config: false, reload_catalog: false, choose_directory: false }
}

fn send(event: BackgroundLoopEvent) -> ForegroundAction {
    ForegroundAction { send: Some(event), ..nothing() }
}

fn titles(app: &MainApp) -> Vec<String> {
    app.main_state().music_list.list.iter().map(|music| music.title.clone()).collect()
}

#[test]
fn a_new_foreground_shows_no_title_and_counts_as_playing() {
    let app = MainApp::new(config(true), listing());
    assert_eq!(app.main_state().title, "no music");
    assert!(app.main_state().on_play);
    assert!(!app.show_setting_modal());
    assert!(app.config_data().is_random);
    assert_eq!(app.config_data().directory_path, "/music");
    assert_eq!(titles(&app), vec!["a.mp3", "b.ogg", "c.mp3"]);
}

#[test]
fn a_new_foreground_starts_the_cells_at_the_first_track() {
    let app = MainApp::new(config(true), listing());
    assert_eq!(
        app.background_state().snapshot(),
        PlaybackPosition { logical_index: 0, physical_index: 0, shuffle_enabled: true }
    );
    let app = MainApp::new(config(false), None);
    assert!(!app.background_state().snapshot().shuffle_enabled);
}

#[test]
fn a_directory_that_cannot_be_listed_gives_an_empty_catalog() {
    let app = MainApp::new(config(false), None);
    assert!(titles(&app).is_empty());
    let mut app = MainApp::new(config(false), listing());
    app.update_music_list_from_config(None);
    assert!(titles(&app).is_empty());
    app.update_music_list_from_config(Some(vec![file("z.ogg"), file("y.jpg")]));
    assert_eq!(titles(&app), vec!["z.ogg"]);
}

#[test]
fn the_play_button_alternates_between_pause_and_resume() {
    let mut app = MainApp::new(config(false), listing());
    assert_eq!(
        app.update(ForegroundEvent::ResumeOrPausePressed),
        send(BackgroundLoopEvent::Pause)
    );
    assert!(!app.main_state().on_play);
    assert_eq!(
        app.update(ForegroundEvent::ResumeOrPausePressed),
        send(BackgroundLoopEvent::Resume)
    );
    assert!(app.main_state().on_play);
}

#[test]
fn next_and_previous_are_passed_on() {
    let mut app = MainApp::new(config(false), listing());
    assert_eq!(app.update(ForegroundEvent::NextPressed), send(BackgroundLoopEvent::Next));
    assert_eq!(app.update(ForegroundEvent::PreviousPressed), send(BackgroundLoopEvent::Previous));
    assert!(app.main_state().on_play);
    assert_eq!(app.main_state().title, "no music");
}

#[test]
fn the_settings_open_and_close() {
    let mut app = MainApp::new(config(false), listing());
    assert_eq!(app.update(ForegroundEvent::OpenSettingModal), nothing());
    assert!(app.show_setting_modal());
    assert_eq!(app.update(ForegroundEvent::CloseSettingModal), nothing());
    assert!(!app.show_setting_modal());
}

#[test]
fn a_new_directory_is_saved_and_listed() {
    let mut app = MainApp::new(config(false), listing());
    let action = app.update(ForegroundEvent::MusicDirectoryInputChanged("/other".to_string()));
    assert_eq!(
        action,
        ForegroundAction { save_config: true, reload_catalog: true, ..nothing() }
    );
    assert_eq!(app.config_data().directory_path, "/other");
    assert!(!app.config_data().is_random);
    assert_eq!(titles(&app), vec!["a.mp3", "b.ogg", "c.mp3"]);
}

#[test]
fn choosing_a_directory_asks_for_the_dialog() {
    let mut app = MainApp::new(config(false), listing());
    let action = app.update(ForegroundEvent::ChooseMusicDirectory);
    assert_eq!(action, ForegroundAction { choose_directory: true, ..nothing() });
    assert_eq!(app.config_data().directory_path, "/music");
}

#[test]
fn the_shuffle_switch_is_saved_and_sent() {
    let mut app = MainApp::new(config(false), listing());
    let action = app.update(ForegroundEvent::RandomToggled(true));
    assert_eq!(
        action,
        ForegroundAction {
            send: Some(BackgroundLoopEvent::ShuffleToggled(true)),
            save_config: true,
            ..nothing()
        }
    );
    assert!(app.config_data().is_random);
    let action = app.update(ForegroundEvent::RandomToggled(false));
    assert_eq!(action.send, Some(BackgroundLoopEvent::ShuffleToggled(false)));
    assert!(!app.config_data().is_random);
}

#[test]
fn a_tick_shows_the_title_of_the_track_that_plays() {
    let mut app = MainApp::new(config(false), listing());
    assert_eq!(app.update(ForegroundEvent::Tick(Instant::now())), nothing());
    assert_eq!(app.main_state().title, "a.mp3");
    app.background_state().publish(PlaybackPosition {
        logical_index: 1,
        physical_index: 2,
        shuffle_enabled: false,
    });
    assert_eq!(app.update(ForegroundEvent::Tick(Instant::now())), nothing());
    assert_eq!(app.main_state().title, "c.mp3");
}

#[test]
fn a_tick_on_an_empty_catalog_keeps_the_title() {
    let mut app = MainApp::new(config(false), None);
    assert_eq!(app.update(ForegroundEvent::Tick(Instant::now())), nothing());
    assert_eq!(app.main_state().title, "no music");
}

#[test]
fn a_tick_ignores_an_index_outside_the_catalog() {
    let mut app = MainApp::new(config(false), listing());
    app.background_state().publish(PlaybackPosition {
        logical_index: 9,
        physical_index: 9,
        shuffle_enabled: false,
    });
    assert_eq!(app.update(ForegroundEvent::Tick(Instant::now())), nothing());
    assert_eq!(app.main_state().title, "no music");
    assert_eq!(app.apply(ForegroundEvent::Tick(Instant::now()), Some(3)), nothing());
    assert_eq!(app.main_state().title, "no music");
    assert_eq!(app.apply(ForegroundEvent::Tick(Instant::now()), None), nothing());
    assert_eq!(app.main_state().title, "no music");
    assert_eq!(app.apply(ForegroundEvent::Tick(Instant::now()), Some(1)), nothing());
    assert_eq!(app.main_state().title, "b.ogg");
}

#[test]
fn only_a_tick_looks_at_the_track_that_plays() {
    let mut app = MainApp::new(config(false), listing());
    assert_eq!(
        app.apply(ForegroundEvent::NextPressed, Some(2)),
        send(BackgroundLoopEvent::Next)
    );
    assert_eq!(app.main_state().title, "no music");
}

#[test]
fn the_play_button_shows_what_a_press_would_do() {
    assert_eq!(play_button_label(true), "||");
    assert_eq!(play_button_label(false), ">>");
}

#[test]
fn the_directory_message_names_what_is_wrong() {
    assert_eq!(directory_error_message("", false, false), "");
    assert_eq!(directory_error_message("", true, true), "");
    assert_eq!(directory_error_message("/nowhere", false, false), "path is not exists");
    assert_eq!(directory_error_message("/nowhere", false, true), "path is not exists");
    assert_eq!(directory_error_message("/etc/hosts", true, false), "path is not directory");
    assert_eq!(directory_error_message("/music", true, true), "");
}

#[test]
fn the_foreground_reads_the_track_that_plays() {
    let app = MainApp::new(config(false), listing());
    assert_eq!(app.current_physical_index(), Some(0));
    app.background_state().publish(PlaybackPosition {
        logical_index: 2,
        physical_index: 2,
        shuffle_enabled: false,
    });
    assert_eq!(app.current_physical_index(), Some(2));
    app.background_state().publish(PlaybackPosition {
        logical_index: 3,
        physical_index: 3,
        shuffle_enabled: false,
    });
    assert_eq!(app.current_physical_index(), None);
    let empty = MainApp::new(config(false), None);
    assert_eq!(empty.current_physical_index(), None);
}

#[test]
fn a_fresh_worker_is_told_to_play() {
    let app = MainApp::new(config(false), listing());
    assert_eq!(app.startup_event(), BackgroundLoopEvent::Play);
}

#[test]
fn events_can_be_cloned() {
    let event = ForegroundEvent::MusicDirectoryInputChanged("/music".to_string());
    match event.clone() {
        ForegroundEvent::MusicDirectoryInputChanged(text) => assert_eq!(text, "/music"),
        other => panic!("unexpected event {:?}", other),
    }
    let now = Instant::now();
    match ForegroundEvent::Tick(now).clone() {
        ForegroundEvent::Tick(instant) => assert_eq!(instant, now),
        other => panic!("unexpected event {:?}", other),
    }
    assert!(matches!(
        ForegroundEvent::RandomToggled(true).clone(),
        ForegroundEvent::RandomToggled(true)
    ));
}

#[test]
fn the_foreground_keeps_its_cells() {
    let mut app = MainApp::new(config(false), listing());
    let shared = app.background_state().clone();
    app.update(ForegroundEvent::NextPressed);
    app.update(ForegroundEvent::RandomToggled(true));
    app.update(ForegroundEvent::MusicDirectoryInputChanged("/other".to_string()));
    app.update_music_list_from_config(listing());
    shared.publish(PlaybackPosition { logical_index: 1, physical_index: 2, shuffle_enabled: true });
    assert_eq!(
        app.background_state().snapshot(),
        PlaybackPosition { logical_index: 1, physical_index: 2, shuffle_enabled: true }
    );
    assert_eq!(app.current_physical_index(), Some(2));
}
