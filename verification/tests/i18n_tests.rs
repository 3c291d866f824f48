use tata_switch::i18n_manager::{get_message, load_locales};

const EN: &str = r#"{"tray": {"launch": "Launch Game", "quit": "Quit"}, "common": {"error": "Error", "count": 3}}"#;
const KO: &str = r#"{"tray": {"launch": "게임 실행"}}"#;

#[test]
fn message_in_chosen_language() {
    let l = load_locales(EN, KO);
    assert_eq!(get_message(&l, "ko", "tray", "launch"), "게임 실행");
    assert_eq!(get_message(&l, "en", "tray", "launch"), "Launch Game");
}

#[test]
fn unknown_language_reads_english() {
    let l = load_locales(EN, KO);
    assert_eq!(get_message(&l, "fr", "tray", "quit"), "Quit");
}

#[test]
fn missing_message_gives_its_key() {
    let l = load_locales(EN, KO);
    assert_eq!(get_message(&l, "ko", "tray", "quit"), "quit");
    assert_eq!(get_message(&l, "en", "nowhere", "launch"), "launch");
}

#[test]
fn non_text_message_gives_its_key() {
    let l = load_locales(EN, KO);
    assert_eq!(get_message(&l, "en", "common", "count"), "count");
    assert_eq!(get_message(&l, "en", "common", "error"), "Error");
}

#[test]
fn unparsable_table_has_no_messages() {
    let l = load_locales(EN, "{not json");
    assert_eq!(get_message(&l, "ko", "tray", "launch"), "launch");
}
