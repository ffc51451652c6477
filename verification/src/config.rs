//! The player's settings and where they are kept.

use vstd::prelude::*;
use vstd::string::StringExecFns;

verus! {

/// The settings that outlive a session.
#[derive(Debug)]
pub struct Config {
    /// Whether shuffle mode is on.
    pub is_random: bool,
    /// The directory whose music files make up the catalog.
    pub directory_path: String,
}

/// The settings as plain values.
pub struct ConfigView {
    pub is_random: bool,
    pub directory_path: Seq<char>,
}

impl View for Config {
    type V = ConfigView;

    open spec fn view(&self) -> ConfigView {
        ConfigView { is_random: self.is_random, directory_path: self.directory_path@ }
    }
}

impl Clone for Config {
    fn clone(&self) -> (copy: Self)
        ensures
            copy@ == self@,
    {
        Config { is_random: self.is_random, directory_path: self.directory_path.clone() }
    }
}

impl Default for Config {
    /// The settings used where none were saved or the saved ones cannot be
    /// read: shuffle off and no directory.
    fn default() -> (config: Self)
        ensures
            config@ == (ConfigView { is_random: false, directory_path: Seq::empty() }),
    {
        Config { is_random: false, directory_path: String::new() }
    }
}

impl Config {
    /// The settings written on the first start: shuffle off, and the music
    /// taken from `directory_path`.
    pub fn with_directory(directory_path: String) -> (config: Config)
        ensures
            config@ == (ConfigView { is_random: false, directory_path: directory_path@ }),
    {
        Config { is_random: false, directory_path }
    }
}

/// The families of operating systems on which the player keeps settings.
#[derive(Debug, Clone, Copy, PartialEq, Eq, Structural)]
pub enum Platform {
    Windows,
    MacOs,
    Linux,
}

/// The directory for the player's data below the home directory `home_dir`.
pub open spec fn spec_app_data_path(home_dir: Seq<char>, platform: Platform) -> Seq<char> {
    match platform {
        Platform::Windows => home_dir + "\\AppData\\Local\\musica"@,
        Platform::MacOs => home_dir + "/Library/Application Support/musica"@,
        Platform::Linux => home_dir + "/.local/share/musica"@,
    }
}

/// The settings file: `config.json` in the directory for the player's data.
pub open spec fn spec_config_path(home_dir: Seq<char>, platform: Platform) -> Seq<char> {
    match platform {
        Platform::Windows => spec_app_data_path(home_dir, platform) + "\\config.json"@,
        _ => spec_app_data_path(home_dir, platform) + "/config.json"@,
    }
}

/// The directory for the player's data below the home directory `home_dir`.
pub fn get_app_data_path(home_dir: &str, platform: Platform) -> (path: String)
    ensures
        path@ == spec_app_data_path(home_dir@, platform),
{
    let mut path = String::from_str(home_dir);
    match platform {
        Platform::Windows => path.append("\\AppData\\Local\\musica"),
        Platform::MacOs => path.append("/Library/Application Support/musica"),
        Platform::Linux => path.append("/.local/share/musica"),
    }
    path
}

/// The path of the settings file for the home directory `home_dir`.
pub fn get_config_path(home_dir: &str, platform: Platform) -> (path: String)
    ensures
        path@ == spec_config_path(home_dir@, platform),
{
    let mut path = get_app_data_path(home_dir, platform);
    match platform {
        Platform::Windows => path.append("\\config.json"),
        _ => path.append("/config.json"),
    }
    path
}

} // verus!
