use configparser::ini::Ini;
use tata_switch::settings_manager::{
    app_data_dir_in, default_settings, get_ini_path, load_settings, save_settings, settings_from_ini, AppSettings,
};

fn settings(session: &str, game: &str, language: &str) -> AppSettings {
    AppSettings { session_path: session.to_string(), game_path: game.to_string(), language: language.to_string() }
}

#[test]
fn unreadable_settings_file_gives_defaults() {
    let s = load_settings(None);
    assert_eq!(s.session_path, "");
    assert_eq!(s.game_path, "");
    assert_eq!(s.language, "en");
}

#[test]
fn default_settings_are_english_without_paths() {
    let s = default_settings();
    assert_eq!((s.session_path.as_str(), s.game_path.as_str(), s.language.as_str()), ("", "", "en"));
    let d = AppSettings::default();
    assert_eq!((d.session_path.as_str(), d.game_path.as_str(), d.language.as_str()), ("", "", ""));
}

#[test]
fn settings_file_values_are_read() {
    let text = "[paths]\nsession_path=C:\\Users\\me\\pre_1\ngame_path=D:\\Game\\Endfield.exe\nlanguage=ko\n";
    let s = load_settings(Some(text.to_string()));
    assert_eq!(s.session_path, "C:\\Users\\me\\pre_1");
    assert_eq!(s.game_path, "D:\\Game\\Endfield.exe");
    assert_eq!(s.language, "ko");
}

#[test]
fn missing_language_defaults_to_english() {
    let s = load_settings(Some("[paths]\ngame_path = x.exe\n".to_string()));
    assert_eq!(s.session_path, "");
    assert_eq!(s.game_path, "x.exe");
    assert_eq!(s.language, "en");
}

#[test]
fn section_and_key_names_ignore_case() {
    let s = load_settings(Some("[PATHS]\nSESSION_PATH=abc\n".to_string()));
    assert_eq!(s.session_path, "abc");
}

#[test]
fn unparsable_settings_file_gives_defaults() {
    let s = load_settings(Some("[paths\nsession_path=x\n".to_string()));
    assert_eq!(s.session_path, "");
    assert_eq!(s.language, "en");
}

#[test]
fn saved_settings_load_back_unchanged() {
    let saved = settings("C:\\Users\\me\\AppData\\pre_7", "D:\\Games\\Endfield.exe", "ko");
    let text = save_settings(&saved);
    assert!(text.contains("[paths]"));
    let back = load_settings(Some(text));
    assert_eq!(back.session_path, saved.session_path);
    assert_eq!(back.game_path, saved.game_path);
    assert_eq!(back.language, saved.language);
}

#[test]
fn saved_empty_settings_load_back_unchanged() {
    let saved = settings("", "", "en");
    let back = load_settings(Some(save_settings(&saved)));
    assert_eq!((back.session_path.as_str(), back.game_path.as_str(), back.language.as_str()), ("", "", "en"));
}

#[test]
fn value_with_comment_symbol_is_cut_on_reload() {
    // `#` starts an inline comment, so such a path does not survive a round trip.
    let saved = settings("C:\\a#b", "g", "en");
    let back = load_settings(Some(save_settings(&saved)));
    assert_eq!(back.session_path, "C:\\a");
}

#[test]
fn ini_path_is_inside_app_data_dir() {
    assert_eq!(get_ini_path("/home/me/Documents/TA-TA/switch"), "/home/me/Documents/TA-TA/switch/settings.ini");
    assert_eq!(get_ini_path("/home/me/"), "/home/me/settings.ini");
}

#[test]
fn app_data_dir_is_below_documents() {
    assert_eq!(app_data_dir_in("/home/me/Documents"), "/home/me/Documents/TA-TA/switch");
}

#[test]
fn value_with_surrounding_space_is_trimmed_on_reload() {
    // Values are trimmed when read, so surrounding white space does not survive.
    let saved = settings("C:\\a ", "g", "en");
    let text = save_settings(&saved);
    assert!(text.contains("session_path=C:\\a "));
    let back = load_settings(Some(text));
    assert_eq!(back.session_path, "C:\\a");
}

#[test]
fn parsed_settings_are_read_from_the_paths_section() {
    let mut config = Ini::new();
    config.read("[paths]\nsession_path=/s\ngame_path=/g/Endfield.exe\nlanguage=ko\n".to_string()).unwrap();
    let s = settings_from_ini(&config);
    assert_eq!((s.session_path.as_str(), s.game_path.as_str(), s.language.as_str()), ("/s", "/g/Endfield.exe", "ko"));
}

#[test]
fn parsed_settings_fill_in_what_is_missing() {
    let mut config = Ini::new();
    config.read("[paths]\ngame_path=/g\n[other]\nlanguage=ko\n".to_string()).unwrap();
    let s = settings_from_ini(&config);
    assert_eq!((s.session_path.as_str(), s.game_path.as_str(), s.language.as_str()), ("", "/g", "en"));
    let empty = settings_from_ini(&Ini::new());
    assert_eq!((empty.session_path.as_str(), empty.game_path.as_str(), empty.language.as_str()), ("", "", "en"));
}
