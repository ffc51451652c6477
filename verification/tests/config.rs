use musica::config::{get_app_data_path, get_config_path, Config, Platform};

#[test]
fn config_path_on_linux() {
    assert_eq!(
        get_config_path("/home/ann", Platform::Linux),
        "/home/ann/.local/share/musica/config.json"
    );
}

#[test]
fn config_path_on_macos() {
    assert_eq!(
        get_config_path("/Users/ann", Platform::MacOs),
        "/Users/ann/Library/Application Support/musica/config.json"
    );
}

#[test]
fn config_path_on_windows() {
    assert_eq!(
        get_config_path("C:\\Users\\ann", Platform::Windows),
        "C:\\Users\\ann\\AppData\\Local\\musica\\config.json"
    );
}

#[test]
fn config_path_without_a_home_directory() {
    assert_eq!(get_config_path("", Platform::Linux), "/.local/share/musica/config.json");
    assert_eq!(
        get_config_path("", Platform::MacOs),
        "/Library/Application Support/musica/config.json"
    );
    assert_eq!(get_config_path("", Platform::Windows), "\\AppData\\Local\\musica\\config.json");
}

#[test]
fn app_data_path_lies_below_the_home_directory() {
    assert_eq!(get_app_data_path("/home/ann", Platform::Linux), "/home/ann/.local/share/musica");
    assert_eq!(
        get_app_data_path("/Users/ann", Platform::MacOs),
        "/Users/ann/Library/Application Support/musica"
    );
    assert_eq!(
        get_app_data_path("C:\\Users\\ann", Platform::Windows),
        "C:\\Users\\ann\\AppData\\Local\\musica"
    );
}

#[test]
fn config_path_agrees_with_joining_the_file_name() {
    let joined = std::path::Path::new(&get_app_data_path("/home/ann", Platform::Linux))
        .join("config.json");
    if std::path::MAIN_SEPARATOR == '/' {
        assert_eq!(joined.to_str().unwrap(), get_config_path("/home/ann", Platform::Linux));
    }
}

#[test]
fn default_config_has_shuffle_off_and_no_directory() {
    let config = Config::default();
    assert!(!config.is_random);
    assert_eq!(config.directory_path, "");
}

#[test]
fn first_config_points_to_the_given_directory() {
    let config = Config::with_directory("/home/ann/music".to_string());
    assert!(!config.is_random);
    assert_eq!(config.directory_path, "/home/ann/music");
    let copy = config.clone();
    assert_eq!(copy.directory_path, "/home/ann/music");
    assert_eq!(copy.is_random, config.is_random);
}
