use tata_switch::account_manager::{
    account_dir, delete_account, get_active_account, get_backups_dir, get_saved_accounts, is_game_running,
    load_account_session, save_account_session, set_active_account, ActiveAccount, DirEntryInfo, DirListing,
    SessionTransfer, TransferAction, TransferEvent,
};

fn names(v: &[&str]) -> Vec<String> {
    v.iter().map(|s| s.to_string()).collect()
}

#[test]
fn no_profile_is_active_at_start() {
    let state = ActiveAccount::new();
    assert_eq!(get_active_account(&state), None);
}

#[test]
fn active_profile_reads_back_what_was_set() {
    let mut state = ActiveAccount::new();
    set_active_account(&mut state, Some("main".to_string()));
    assert_eq!(get_active_account(&state), Some("main".to_string()));
    set_active_account(&mut state, None);
    assert_eq!(get_active_account(&state), None);
}

#[test]
fn deleting_active_profile_clears_it() {
    let mut state = ActiveAccount::new();
    set_active_account(&mut state, Some("main".to_string()));
    assert_eq!(delete_account(&mut state, "main", Ok(())), Ok(()));
    assert_eq!(get_active_account(&state), None);
}

#[test]
fn deleting_other_profile_keeps_active() {
    let mut state = ActiveAccount::new();
    set_active_account(&mut state, Some("main".to_string()));
    assert_eq!(delete_account(&mut state, "alt", Ok(())), Ok(()));
    assert_eq!(get_active_account(&state), Some("main".to_string()));
}

#[test]
fn failed_removal_is_reported_and_keeps_active() {
    let mut state = ActiveAccount::new();
    set_active_account(&mut state, Some("main".to_string()));
    assert_eq!(delete_account(&mut state, "main", Err("denied".to_string())), Err("denied".to_string()));
    assert_eq!(get_active_account(&state), Some("main".to_string()));
}

#[test]
fn game_process_is_found_in_any_case() {
    assert!(is_game_running(&names(&["explorer.exe", "EndField.EXE"])));
    assert!(is_game_running(&names(&["C:\\x\\Endfield.exe.bak"])));
    assert!(!is_game_running(&names(&["explorer.exe", "endfield"])));
    assert!(!is_game_running(&names(&[])));
}

#[test]
fn backups_and_profile_dirs_are_joined() {
    assert_eq!(get_backups_dir("/data/TA-TA/switch"), "/data/TA-TA/switch/backups");
    assert_eq!(account_dir("/data/backups", "main"), "/data/backups/main");
}

fn entry(is_dir: bool, name: Option<&str>, path: &str) -> Option<DirEntryInfo> {
    Some(DirEntryInfo { is_dir, name: name.map(|n| n.to_string()), path: path.to_string() })
}

#[test]
fn saved_profiles_are_the_subdirectories() {
    let listing = DirListing::Entries(vec![
        entry(true, Some("main"), "/b/main"),
        entry(false, Some("notes.txt"), "/b/notes.txt"),
        None,
        entry(true, None, "/b/??"),
        entry(true, Some("alt"), "/b/alt"),
    ]);
    assert_eq!(get_saved_accounts(&listing), Ok(names(&["main", "alt"])));
}

#[test]
fn missing_backups_dir_means_no_profiles() {
    assert_eq!(get_saved_accounts(&DirListing::Missing), Ok(vec![]));
}

#[test]
fn unreadable_backups_dir_is_an_error() {
    assert_eq!(get_saved_accounts(&DirListing::Unreadable("no access".to_string())), Err("no access".to_string()));
}

fn expect_check(a: TransferAction) -> String {
    match a {
        TransferAction::CheckExists(p) => p,
        _ => panic!("expected an existence check"),
    }
}

fn expect_copy(a: TransferAction) -> (String, String) {
    match a {
        TransferAction::CopyFile(f, t) => (f, t),
        _ => panic!("expected a copy"),
    }
}

fn expect_finish(a: TransferAction) -> (Result<(), String>, Option<String>) {
    match a {
        TransferAction::Finish(r, act) => (r, act),
        _ => panic!("expected the end"),
    }
}

fn start(t: &mut SessionTransfer) -> TransferAction {
    let a = t.step(TransferEvent::Processes(names(&["explorer.exe"])));
    assert!(matches!(a, TransferAction::LocateBackups));
    t.step(TransferEvent::BackupsDir("/bk".to_string()))
}

#[test]
fn save_copies_existing_session_files() {
    let (mut t, first) = save_account_session("/game/pre_1", "main");
    assert!(matches!(first, TransferAction::ListProcesses));
    match start(&mut t) {
        TransferAction::CreateDir(d) => assert_eq!(d, "/bk/main"),
        _ => panic!("expected directory creation"),
    }
    let a = t.step(TransferEvent::Completed(Ok(())));
    assert_eq!(expect_check(a), "/game/pre_1/gf_login_cache");
    let a = t.step(TransferEvent::Exists(true));
    assert_eq!(expect_copy(a), ("/game/pre_1/gf_login_cache".to_string(), "/bk/main/gf_login_cache".to_string()));
    let a = t.step(TransferEvent::Completed(Ok(())));
    assert_eq!(expect_check(a), "/game/pre_1/gf_login_cache.crc");
    let a = t.step(TransferEvent::Exists(false));
    assert_eq!(expect_finish(a), (Ok(()), None));
}

#[test]
fn save_refused_while_game_runs() {
    let (mut t, _) = save_account_session("/game", "main");
    let a = t.step(TransferEvent::Processes(names(&["Endfield.exe"])));
    assert_eq!(
        expect_finish(a),
        (Err("Cannot save session while game is running. Please close Endfield first.".to_string()), None)
    );
}

#[test]
fn save_reports_directory_error() {
    let (mut t, _) = save_account_session("/game", "main");
    start(&mut t);
    let a = t.step(TransferEvent::Completed(Err("disk full".to_string())));
    assert_eq!(expect_finish(a), (Err("disk full".to_string()), None));
}

#[test]
fn load_restores_and_activates_profile() {
    let (mut t, _) = load_account_session("/game/pre_1", "main");
    assert_eq!(expect_check(start(&mut t)), "/bk/main");
    let a = t.step(TransferEvent::Exists(true));
    assert_eq!(expect_check(a), "/bk/main/gf_login_cache");
    let a = t.step(TransferEvent::Exists(true));
    assert_eq!(expect_copy(a), ("/bk/main/gf_login_cache".to_string(), "/game/pre_1/gf_login_cache".to_string()));
    let a = t.step(TransferEvent::Completed(Ok(())));
    assert_eq!(expect_check(a), "/bk/main/gf_login_cache.crc");
    let a = t.step(TransferEvent::Exists(true));
    assert_eq!(
        expect_copy(a),
        ("/bk/main/gf_login_cache.crc".to_string(), "/game/pre_1/gf_login_cache.crc".to_string())
    );
    let a = t.step(TransferEvent::Completed(Ok(())));
    assert_eq!(expect_finish(a), (Ok(()), Some("main".to_string())));
}

#[test]
fn load_refused_while_game_runs() {
    let (mut t, _) = load_account_session("/game", "main");
    let a = t.step(TransferEvent::Processes(names(&["ENDFIELD.EXE"])));
    assert_eq!(
        expect_finish(a),
        (Err("Cannot switch profiles while game is running. Please close Endfield first.".to_string()), None)
    );
}

#[test]
fn load_of_missing_backup_fails() {
    let (mut t, _) = load_account_session("/game", "ghost");
    start(&mut t);
    let a = t.step(TransferEvent::Exists(false));
    assert_eq!(expect_finish(a), (Err("Account backup not found".to_string()), None));
}

#[test]
fn load_copy_error_stops_without_activation() {
    let (mut t, _) = load_account_session("/game", "main");
    start(&mut t);
    t.step(TransferEvent::Exists(true));
    t.step(TransferEvent::Exists(true));
    let a = t.step(TransferEvent::Completed(Err("locked".to_string())));
    assert_eq!(expect_finish(a), (Err("locked".to_string()), None));
}
