use tata_switch::dialogs::{
    apply_detected_paths, apply_language, auto_detect_dialog, blank_name_dialog, check_paths_dialog,
    delete_confirm_dialog, error_dialog, launch_failed_dialog, profile_name_accepted, save_profile_dialog,
    switch_dialog, Dialog, DialogKind,
};
use tata_switch::i18n_manager::{load_locales, Locales};
use tata_switch::settings_manager::AppSettings;
use tata_switch::tray_menu::{build_menu, icon_image, load_icon, parse_menu_command, IconImage, MenuCommand, MenuNode};

const EN: &str = r#"{
  "tray": {"launch": "Launch", "profiles": "Profiles", "remove_profile": "Remove", "save_session": "Save",
           "auto_detect": "Detect", "check_paths": "Paths", "set_session": "Session dir", "set_game": "Game exe",
           "set_language": "Language", "quit": "Quit"},
  "common": {"error": "Error", "success": "Done"},
  "notifications": {"launch_failed": "Launch failed: {}", "switch_success_title": "Switched",
                    "switch_success_msg": "Now using {}", "switch_failed_title": "Switch failed",
                    "switch_failed_msg": "Could not switch: {}"},
  "dialogs": {"auto_detect_success": "Session: {}\nGame: {}", "auto_detect_failed": "Nothing found",
              "current_paths_msg": "Session: {} / Game: {}", "delete_confirm_title": "Delete?",
              "delete_confirm_msg": "Delete {}?", "enter_name_error": "Enter a name",
              "save_success_msg": "Saved"}
}"#;

fn locales() -> Locales {
    load_locales(EN, "{}")
}

fn settings(session: &str, game: &str, language: &str) -> AppSettings {
    AppSettings { session_path: session.to_string(), game_path: game.to_string(), language: language.to_string() }
}

fn check(d: &Dialog, kind: DialogKind, title: &str, message: &str) {
    assert_eq!(d.kind, kind);
    assert_eq!(d.title, title);
    assert_eq!(d.message, message);
}

#[test]
fn fixed_menu_ids_are_parsed() {
    assert!(matches!(parse_menu_command("quit"), MenuCommand::Quit));
    assert!(matches!(parse_menu_command("launch"), MenuCommand::Launch));
    assert!(matches!(parse_menu_command("add_profile"), MenuCommand::AddProfile));
    assert!(matches!(parse_menu_command("set_session_path"), MenuCommand::SetSessionPath));
    assert!(matches!(parse_menu_command("set_game_path"), MenuCommand::SetGamePath));
    assert!(matches!(parse_menu_command("auto_detect_paths"), MenuCommand::AutoDetectPaths));
    assert!(matches!(parse_menu_command("check_paths"), MenuCommand::CheckPaths));
    assert!(matches!(parse_menu_command("quitting"), MenuCommand::Ignore));
    assert!(matches!(parse_menu_command(""), MenuCommand::Ignore));
}

#[test]
fn prefixed_menu_ids_carry_their_argument() {
    match parse_menu_command("lang:ko") {
        MenuCommand::SetLanguage(l) => assert_eq!(l, "ko"),
        _ => panic!("expected a language"),
    }
    match parse_menu_command("switch:my main") {
        MenuCommand::SwitchProfile(n) => assert_eq!(n, "my main"),
        _ => panic!("expected a switch"),
    }
    match parse_menu_command("delete:switch:x") {
        MenuCommand::DeleteProfile(n) => assert_eq!(n, "switch:x"),
        _ => panic!("expected a deletion"),
    }
    match parse_menu_command("switch:") {
        MenuCommand::SwitchProfile(n) => assert_eq!(n, ""),
        _ => panic!("expected a switch"),
    }
}

fn item_of(n: &MenuNode) -> (&str, &str, Option<bool>) {
    match n {
        MenuNode::Item(it) => (it.id.as_str(), it.label.as_str(), it.checked),
        _ => panic!("expected an item"),
    }
}

#[test]
fn menu_lists_profiles_and_checks_active() {
    let accounts = Ok(vec!["main".to_string(), "alt".to_string()]);
    let menu = build_menu(&accounts, &Some("alt".to_string()), &settings("", "", "en"), &locales());
    assert_eq!(menu.len(), 14);
    assert_eq!(item_of(&menu[0]), ("launch", "Launch", None));
    assert!(matches!(menu[1], MenuNode::Separator));
    match &menu[2] {
        MenuNode::Submenu(label, items) => {
            assert_eq!(label, "Profiles");
            assert_eq!(items.len(), 2);
            assert_eq!((items[0].id.as_str(), items[0].label.as_str(), items[0].checked), ("switch:main", "main", Some(false)));
            assert_eq!((items[1].id.as_str(), items[1].label.as_str(), items[1].checked), ("switch:alt", "alt", Some(true)));
        },
        _ => panic!("expected the profiles"),
    }
    match &menu[3] {
        MenuNode::Submenu(label, items) => {
            assert_eq!(label, "Remove");
            assert_eq!((items[1].id.as_str(), items[1].label.as_str(), items[1].checked), ("delete:alt", "alt", None));
        },
        _ => panic!("expected the removals"),
    }
    assert_eq!(item_of(&menu[4]), ("add_profile", "Save", None));
    assert_eq!(item_of(&menu[6]), ("auto_detect_paths", "Detect", None));
    assert_eq!(item_of(&menu[7]), ("check_paths", "Paths", None));
    assert_eq!(item_of(&menu[9]), ("set_session_path", "Session dir", None));
    assert_eq!(item_of(&menu[10]), ("set_game_path", "Game exe", None));
    match &menu[11] {
        MenuNode::Submenu(label, items) => {
            assert_eq!(label, "Language");
            assert_eq!((items[0].id.as_str(), items[0].label.as_str(), items[0].checked), ("lang:en", "English", Some(true)));
            assert_eq!((items[1].id.as_str(), items[1].label.as_str(), items[1].checked), ("lang:ko", "한국어", Some(false)));
        },
        _ => panic!("expected the languages"),
    }
    assert_eq!(item_of(&menu[13]), ("quit", "Quit", None));
}

#[test]
fn menu_without_listed_profiles_has_empty_lists() {
    let menu = build_menu(&Err("denied".to_string()), &None, &settings("", "", "ko"), &locales());
    match &menu[2] {
        MenuNode::Submenu(_, items) => assert!(items.is_empty()),
        _ => panic!("expected the profiles"),
    }
    match &menu[11] {
        MenuNode::Submenu(_, items) => assert_eq!(items[1].checked, Some(true)),
        _ => panic!("expected the languages"),
    }
    // Korean has a (here empty) table of its own, so missing texts show their keys.
    assert_eq!(item_of(&menu[0]), ("launch", "launch", None));
}

#[test]
fn switch_entry_ids_parse_back_to_profiles() {
    let accounts = Ok(vec!["a b".to_string(), "lang:x".to_string()]);
    let menu = build_menu(&accounts, &None, &settings("", "", "en"), &locales());
    if let MenuNode::Submenu(_, items) = &menu[2] {
        for (item, name) in items.iter().zip(["a b", "lang:x"]) {
            match parse_menu_command(&item.id) {
                MenuCommand::SwitchProfile(n) => assert_eq!(n, name),
                _ => panic!("expected a switch"),
            }
        }
    }
}

#[test]
fn undecodable_icon_gives_grey_square() {
    let icon = load_icon(b"not an icon");
    assert_eq!((icon.width, icon.height), (32, 32));
    assert_eq!(icon.rgba.len(), 4096);
    assert!(icon.rgba.iter().all(|b| *b == 128));
}

/// A one-pixel 24-bit BMP image (blue 0x10, green 0x20, red 0x30) stored in
/// an ICO container.
fn one_pixel_ico() -> Vec<u8> {
    let mut bmp = Vec::new();
    bmp.extend_from_slice(&40u32.to_le_bytes()); // header size
    bmp.extend_from_slice(&1i32.to_le_bytes()); // width
    bmp.extend_from_slice(&2i32.to_le_bytes()); // height, doubled for the mask
    bmp.extend_from_slice(&1u16.to_le_bytes()); // planes
    bmp.extend_from_slice(&24u16.to_le_bytes()); // bits per pixel
    bmp.extend_from_slice(&[0u8; 24]); // no compression, sizes, resolution, palette
    bmp.extend_from_slice(&[0x10, 0x20, 0x30, 0x00]); // the pixel row, padded to 4 bytes
    bmp.extend_from_slice(&[0x00, 0x00, 0x00, 0x00]); // the mask row: opaque
    let mut ico = vec![0, 0, 1, 0, 1, 0];
    ico.extend_from_slice(&[1, 1, 0, 0, 1, 0, 24, 0]);
    ico.extend_from_slice(&(bmp.len() as u32).to_le_bytes());
    ico.extend_from_slice(&22u32.to_le_bytes());
    ico.extend_from_slice(&bmp);
    ico
}

#[test]
fn decoded_icon_is_kept_and_missing_one_replaced() {
    let kept = icon_image(Some(IconImage { rgba: vec![1, 2, 3, 4], width: 1, height: 1 }));
    assert_eq!((kept.rgba, kept.width, kept.height), (vec![1, 2, 3, 4], 1, 1));
    let grey = icon_image(None);
    assert_eq!((grey.width, grey.height, grey.rgba.len()), (32, 32, 4096));
}

#[test]
fn embedded_icon_is_decoded() {
    let icon = load_icon(&one_pixel_ico());
    assert_eq!((icon.width, icon.height), (1, 1));
    assert_eq!(icon.rgba, vec![0x30, 0x20, 0x10, 0xFF]);
}

#[test]
fn launch_failure_dialog_fills_error() {
    let d = launch_failed_dialog(&locales(), "en", "not found");
    check(&d, DialogKind::Error, "Error", "Launch failed: not found");
}

#[test]
fn detected_paths_replace_remembered_ones() {
    let (s, changed) = apply_detected_paths(settings("old_s", "old_g", "ko"), Ok("new_s".to_string()), Err("x".to_string()));
    assert!(changed);
    assert_eq!((s.session_path.as_str(), s.game_path.as_str(), s.language.as_str()), ("new_s", "old_g", "ko"));
    let (s, changed) = apply_detected_paths(settings("a", "b", "en"), Err("x".to_string()), Err("y".to_string()));
    assert!(!changed);
    assert_eq!((s.session_path.as_str(), s.game_path.as_str()), ("a", "b"));
}

#[test]
fn detection_dialogs() {
    let l = locales();
    let d = auto_detect_dialog(&l, "en", &settings("S", "G", "en"), true);
    check(&d, DialogKind::Info, "Detect", "Session: S\nGame: S");
    let d = auto_detect_dialog(&l, "en", &settings("S", "G", "en"), false);
    check(&d, DialogKind::Error, "Detect", "Nothing found");
}

#[test]
fn current_paths_dialog_fills_both_placeholders_at_once() {
    let d = check_paths_dialog(&locales(), "en", &settings("S", "G", "en"));
    check(&d, DialogKind::Info, "Paths", "Session: S / Game: S");
}

#[test]
fn language_change_keeps_paths() {
    let s = apply_language(settings("a", "b", "en"), "ko");
    assert_eq!((s.session_path.as_str(), s.game_path.as_str(), s.language.as_str()), ("a", "b", "ko"));
}

#[test]
fn switch_dialogs() {
    let l = locales();
    check(&switch_dialog(&l, "en", "main", &Ok(())), DialogKind::Info, "Switched", "Now using main");
    check(
        &switch_dialog(&l, "en", "main", &Err("busy".to_string())),
        DialogKind::Error,
        "Switch failed",
        "Could not switch: busy",
    );
}

#[test]
fn delete_and_error_dialogs() {
    let l = locales();
    check(&delete_confirm_dialog(&l, "en", "alt"), DialogKind::Question, "Delete?", "Delete alt?");
    check(&error_dialog(&l, "en", "boom"), DialogKind::Error, "Error", "boom");
}

#[test]
fn deletion_only_after_yes() {
    assert_eq!(dialogs_confirmed("alt", true), Some("alt".to_string()));
    assert_eq!(dialogs_confirmed("alt", false), None);
}

fn dialogs_confirmed(account: &str, yes: bool) -> Option<String> {
    tata_switch::dialogs::confirmed_deletion(account, yes)
}

#[test]
fn profile_names_must_not_be_blank() {
    assert!(!profile_name_accepted(""));
    assert!(!profile_name_accepted(" \t\u{3000}"));
    assert!(profile_name_accepted(" main "));
    check(&blank_name_dialog(&locales(), "en"), DialogKind::Error, "Error", "Enter a name");
}

#[test]
fn save_profile_dialogs() {
    let l = locales();
    check(&save_profile_dialog(&l, "en", &Ok(())), DialogKind::Info, "Done", "Saved");
    check(&save_profile_dialog(&l, "en", &Err("io".to_string())), DialogKind::Error, "Error", "io");
}

#[test]
fn delete_and_language_entry_ids_parse_back() {
    let accounts = Ok(vec!["quit".to_string()]);
    let menu = build_menu(&accounts, &None, &settings("", "", "en"), &locales());
    if let MenuNode::Submenu(_, items) = &menu[3] {
        match parse_menu_command(&items[0].id) {
            MenuCommand::DeleteProfile(n) => assert_eq!(n, "quit"),
            _ => panic!("expected a deletion"),
        }
    }
    if let MenuNode::Submenu(_, items) = &menu[11] {
        for (item, lang) in items.iter().zip(["en", "ko"]) {
            match parse_menu_command(&item.id) {
                MenuCommand::SetLanguage(l) => assert_eq!(l, lang),
                _ => panic!("expected a language"),
            }
        }
    }
}
