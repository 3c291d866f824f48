use tata_switch::dialogs::{Dialog, DialogKind};
use tata_switch::i18n_manager::{load_locales, Locales};
use tata_switch::settings_manager::AppSettings;
use tata_switch::tray_flow::{TrayAction, TrayEvent, TrayFlow};
use tata_switch::tray_menu::MenuCommand;

const EN: &str = r#"{
  "tray": {"auto_detect": "Detect", "check_paths": "Paths"},
  "common": {"error": "Error"},
  "notifications": {"launch_failed": "Launch failed: {}", "switch_success_title": "Switched",
                    "switch_success_msg": "Now using {}", "switch_failed_title": "Switch failed",
                    "switch_failed_msg": "Could not switch: {}"},
  "dialogs": {"auto_detect_success": "Session: {}\nGame: {}", "auto_detect_failed": "Nothing found",
              "current_paths_msg": "Session: {} / Game: {}", "delete_confirm_title": "Delete?",
              "delete_confirm_msg": "Delete {}?", "select_session_dir": "Choose the session folder",
              "select_game_exe": "Choose the game", "exe_filter": "Programs(*.exe)"}
}"#;

fn locales() -> Locales {
    load_locales(EN, "{}")
}

fn settings(session: &str, game: &str, language: &str) -> AppSettings {
    AppSettings { session_path: session.to_string(), game_path: game.to_string(), language: language.to_string() }
}

fn loaded() -> TrayEvent {
    TrayEvent::Loaded(settings("/s", "/g/Endfield.exe", "en"))
}

fn shown(action: TrayAction) -> Dialog {
    match action {
        TrayAction::Show(d) => d,
        _ => panic!("expected a message"),
    }
}

fn check(d: &Dialog, kind: DialogKind, title: &str, message: &str) {
    assert_eq!(d.kind, kind);
    assert_eq!(d.title, title);
    assert_eq!(d.message, message);
}

fn saved_settings(action: TrayAction) -> (String, String, String) {
    match action {
        TrayAction::SaveSettings(s) => (s.session_path, s.game_path, s.language),
        _ => panic!("expected a write of the settings"),
    }
}

fn started(command: MenuCommand) -> TrayFlow {
    let (flow, action) = TrayFlow::start(command);
    assert!(matches!(action, TrayAction::LoadSettings));
    flow
}

fn done(flow: &TrayFlow, action: TrayAction) {
    assert!(matches!(action, TrayAction::Finish));
    assert!(matches!(flow, TrayFlow::Done));
}

#[test]
fn clicks_that_need_no_answer() {
    let (flow, action) = TrayFlow::start(MenuCommand::Quit);
    assert!(matches!((flow, action), (TrayFlow::Done, TrayAction::StopDispatch)));
    let (flow, action) = TrayFlow::start(MenuCommand::AddProfile);
    assert!(matches!((flow, action), (TrayFlow::Done, TrayAction::OpenAddProfile)));
    let (flow, action) = TrayFlow::start(MenuCommand::Ignore);
    done(&flow, action);
}

#[test]
fn launch_starts_the_remembered_game() {
    let l = locales();
    let mut flow = started(MenuCommand::Launch);
    match flow.step(loaded(), &l) {
        TrayAction::LaunchGame(path) => assert_eq!(path, "/g/Endfield.exe"),
        _ => panic!("expected the game to be started"),
    }
    let a = flow.step(TrayEvent::Launched(Ok(())), &l);
    done(&flow, a);
}

#[test]
fn failed_launch_is_reported() {
    let l = locales();
    let mut flow = started(MenuCommand::Launch);
    flow.step(loaded(), &l);
    let d = shown(flow.step(TrayEvent::Launched(Err("not found".to_string())), &l));
    check(&d, DialogKind::Error, "Error", "Launch failed: not found");
    let a = flow.step(TrayEvent::Acknowledged, &l);
    done(&flow, a);
}

#[test]
fn picked_session_folder_is_saved() {
    let l = locales();
    let mut flow = started(MenuCommand::SetSessionPath);
    match flow.step(loaded(), &l) {
        TrayAction::PickFolder(title) => assert_eq!(title, "Choose the session folder"),
        _ => panic!("expected a folder picker"),
    }
    assert!(matches!(flow.step(TrayEvent::Picked(Some("/new".to_string())), &l), TrayAction::LoadSettings));
    let written = saved_settings(flow.step(loaded(), &l));
    assert_eq!(written, ("/new".to_string(), "/g/Endfield.exe".to_string(), "en".to_string()));
    let a = flow.step(TrayEvent::Saved(Ok(())), &l);
    done(&flow, a);
}

#[test]
fn cancelled_game_picker_changes_nothing() {
    let l = locales();
    let mut flow = started(MenuCommand::SetGamePath);
    match flow.step(loaded(), &l) {
        TrayAction::PickExecutable(title, filter) => {
            assert_eq!(title, "Choose the game");
            assert_eq!(filter, "Programs(*.exe)");
        }
        _ => panic!("expected a file picker"),
    }
    let a = flow.step(TrayEvent::Picked(None), &l);
    done(&flow, a);
}

#[test]
fn picked_game_is_saved() {
    let l = locales();
    let mut flow = started(MenuCommand::SetGamePath);
    flow.step(loaded(), &l);
    flow.step(TrayEvent::Picked(Some("/other/game.exe".to_string())), &l);
    let written = saved_settings(flow.step(loaded(), &l));
    assert_eq!(written, ("/s".to_string(), "/other/game.exe".to_string(), "en".to_string()));
}

#[test]
fn detected_paths_are_saved_then_reported() {
    let l = locales();
    let mut flow = started(MenuCommand::AutoDetectPaths);
    assert!(matches!(flow.step(loaded(), &l), TrayAction::DetectPaths));
    let found = TrayEvent::Detected(Err("no session".to_string()), Ok("/found/game.exe".to_string()));
    let written = saved_settings(flow.step(found, &l));
    assert_eq!(written, ("/s".to_string(), "/found/game.exe".to_string(), "en".to_string()));
    let d = shown(flow.step(TrayEvent::Saved(Err("read-only".to_string())), &l));
    // Every placeholder takes the first value filled in, as `str::replace` does.
    check(&d, DialogKind::Info, "Detect", "Session: /s\nGame: /s");
    let a = flow.step(TrayEvent::Acknowledged, &l);
    done(&flow, a);
}

#[test]
fn nothing_detected_saves_nothing() {
    let l = locales();
    let mut flow = started(MenuCommand::AutoDetectPaths);
    flow.step(loaded(), &l);
    let d = shown(flow.step(TrayEvent::Detected(Err("a".to_string()), Err("b".to_string())), &l));
    check(&d, DialogKind::Error, "Detect", "Nothing found");
    let a = flow.step(TrayEvent::Acknowledged, &l);
    done(&flow, a);
}

#[test]
fn check_paths_shows_the_remembered_paths() {
    let l = locales();
    let mut flow = started(MenuCommand::CheckPaths);
    let d = shown(flow.step(loaded(), &l));
    check(&d, DialogKind::Info, "Paths", "Session: /s / Game: /s");
    let a = flow.step(TrayEvent::Acknowledged, &l);
    done(&flow, a);
}

#[test]
fn language_change_is_saved_and_the_menu_rebuilt() {
    let l = locales();
    let mut flow = started(MenuCommand::SetLanguage("ko".to_string()));
    let written = saved_settings(flow.step(loaded(), &l));
    assert_eq!(written, ("/s".to_string(), "/g/Endfield.exe".to_string(), "ko".to_string()));
    assert!(matches!(flow.step(TrayEvent::Saved(Ok(())), &l), TrayAction::RebuildMenu));
    let a = flow.step(TrayEvent::Acknowledged, &l);
    done(&flow, a);
}

#[test]
fn failed_language_change_is_reported_then_the_menu_rebuilt() {
    let l = locales();
    let mut flow = started(MenuCommand::SetLanguage("ko".to_string()));
    flow.step(loaded(), &l);
    assert!(matches!(flow.step(TrayEvent::Saved(Err("disk full".to_string())), &l), TrayAction::LoadSettings));
    let d = shown(flow.step(loaded(), &l));
    check(&d, DialogKind::Error, "Error", "disk full");
    assert!(matches!(flow.step(TrayEvent::Acknowledged, &l), TrayAction::RebuildMenu));
    let a = flow.step(TrayEvent::Acknowledged, &l);
    done(&flow, a);
}

#[test]
fn switch_restores_into_the_session_folder() {
    let l = locales();
    let mut flow = started(MenuCommand::SwitchProfile("alice".to_string()));
    match flow.step(loaded(), &l) {
        TrayAction::RestoreProfile(session, name) => {
            assert_eq!(session, "/s");
            assert_eq!(name, "alice");
        }
        _ => panic!("expected a restore"),
    }
    let d = shown(flow.step(TrayEvent::Restored(Ok(())), &l));
    check(&d, DialogKind::Info, "Switched", "Now using alice");
    assert!(matches!(flow.step(TrayEvent::Acknowledged, &l), TrayAction::RebuildMenu));
    let a = flow.step(TrayEvent::Acknowledged, &l);
    done(&flow, a);
}

#[test]
fn failed_switch_is_reported() {
    let l = locales();
    let mut flow = started(MenuCommand::SwitchProfile("alice".to_string()));
    flow.step(loaded(), &l);
    let d = shown(flow.step(TrayEvent::Restored(Err("game running".to_string())), &l));
    check(&d, DialogKind::Error, "Switch failed", "Could not switch: game running");
}

#[test]
fn refused_deletion_deletes_nothing() {
    let l = locales();
    let mut flow = started(MenuCommand::DeleteProfile("bob".to_string()));
    match flow.step(loaded(), &l) {
        TrayAction::Ask(q) => check(&q, DialogKind::Question, "Delete?", "Delete bob?"),
        _ => panic!("expected a question"),
    }
    let a = flow.step(TrayEvent::Answered(false), &l);
    done(&flow, a);
}

#[test]
fn confirmed_deletion_deletes_then_rebuilds() {
    let l = locales();
    let mut flow = started(MenuCommand::DeleteProfile("bob".to_string()));
    flow.step(loaded(), &l);
    match flow.step(TrayEvent::Answered(true), &l) {
        TrayAction::DeleteProfile(name) => assert_eq!(name, "bob"),
        _ => panic!("expected a deletion"),
    }
    assert!(matches!(flow.step(TrayEvent::Deleted(Ok(())), &l), TrayAction::RebuildMenu));
    let a = flow.step(TrayEvent::Acknowledged, &l);
    done(&flow, a);
}

#[test]
fn failed_deletion_is_reported_then_rebuilds() {
    let l = locales();
    let mut flow = started(MenuCommand::DeleteProfile("bob".to_string()));
    flow.step(loaded(), &l);
    flow.step(TrayEvent::Answered(true), &l);
    let d = shown(flow.step(TrayEvent::Deleted(Err("in use".to_string())), &l));
    check(&d, DialogKind::Error, "Error", "in use");
    assert!(matches!(flow.step(TrayEvent::Acknowledged, &l), TrayAction::RebuildMenu));
}

#[test]
fn an_answer_not_waited_for_ends_the_flow() {
    let l = locales();
    let mut flow = started(MenuCommand::Launch);
    let a = flow.step(TrayEvent::Answered(true), &l);
    done(&flow, a);
    let a = flow.step(loaded(), &l);
    done(&flow, a);
}
