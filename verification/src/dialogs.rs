//! The message boxes that the tray tool shows, and the settings changes
//! behind its menu commands.

use vstd::prelude::*;
use crate::i18n_manager::{get_message, message_text, Locales};
use crate::settings_manager::AppSettings;
use crate::text::{is_blank, is_blank_str, replace_all, replace_str};

verus! {

/// The kind of message box.
#[derive(Clone, Copy, PartialEq, Eq, Structural, Debug)]
pub enum DialogKind {
    Info,
    Error,
    /// A yes/no question.
    Question,
}

/// A message box: its kind, title and text.
pub struct Dialog {
    pub kind: DialogKind,
    pub title: String,
    pub message: String,
}

/// The placeholder in message templates.
pub open spec fn placeholder() -> Seq<char> {
    "{}"@
}

/// A template with every placeholder replaced by `value`.
pub open spec fn fill(template: Seq<char>, value: Seq<char>) -> Seq<char> {
    replace_all(template, placeholder(), value)
}

/// The dialog has this kind, title and text.
pub open spec fn is_dialog(d: Dialog, kind: DialogKind, title: Seq<char>, message: Seq<char>) -> bool {
    d.kind == kind && d.title@ == title && d.message@ == message
}

/// The error shown when the game could not be started: the common error
/// title, and the launch-failure text with the error filled in.
pub open spec fn is_launch_failed_dialog(d: Dialog, locales: Locales, language: Seq<char>, error: Seq<char>) -> bool {
    is_dialog(
        d,
        DialogKind::Error,
        message_text(locales, language, "common"@, "error"@),
        fill(message_text(locales, language, "notifications"@, "launch_failed"@), error),
    )
}

/// A plain error: the common error title over the error's own text.
pub open spec fn is_error_dialog(d: Dialog, locales: Locales, language: Seq<char>, error: Seq<char>) -> bool {
    is_dialog(d, DialogKind::Error, message_text(locales, language, "common"@, "error"@), error)
}

/// The outcome of path detection: when something was found, the success
/// text with the session path and then the game path filled in; else the
/// failure text as an error.
pub open spec fn is_auto_detect_dialog(
    d: Dialog,
    locales: Locales,
    language: Seq<char>,
    session_path: Seq<char>,
    game_path: Seq<char>,
    changed: bool,
) -> bool {
    let title = message_text(locales, language, "tray"@, "auto_detect"@);
    if changed {
        is_dialog(
            d,
            DialogKind::Info,
            title,
            fill(fill(message_text(locales, language, "dialogs"@, "auto_detect_success"@), session_path), game_path),
        )
    } else {
        is_dialog(d, DialogKind::Error, title, message_text(locales, language, "dialogs"@, "auto_detect_failed"@))
    }
}

/// The remembered paths: the paths text with the session path and then the
/// game path filled in.
pub open spec fn is_check_paths_dialog(
    d: Dialog,
    locales: Locales,
    language: Seq<char>,
    session_path: Seq<char>,
    game_path: Seq<char>,
) -> bool {
    is_dialog(
        d,
        DialogKind::Info,
        message_text(locales, language, "tray"@, "check_paths"@),
        fill(fill(message_text(locales, language, "dialogs"@, "current_paths_msg"@), session_path), game_path),
    )
}

/// The outcome of switching to `account`: the success text naming the
/// profile, or the failure text naming the error.
pub open spec fn is_switch_dialog(
    d: Dialog,
    locales: Locales,
    language: Seq<char>,
    account: Seq<char>,
    outcome: Result<(), String>,
) -> bool {
    match outcome {
        Ok(_) => is_dialog(
            d,
            DialogKind::Info,
            message_text(locales, language, "notifications"@, "switch_success_title"@),
            fill(message_text(locales, language, "notifications"@, "switch_success_msg"@), account),
        ),
        Err(e) => is_dialog(
            d,
            DialogKind::Error,
            message_text(locales, language, "notifications"@, "switch_failed_title"@),
            fill(message_text(locales, language, "notifications"@, "switch_failed_msg"@), e@),
        ),
    }
}

/// The yes/no question asked before deleting `account`.
pub open spec fn is_delete_confirm_dialog(d: Dialog, locales: Locales, language: Seq<char>, account: Seq<char>) -> bool {
    is_dialog(
        d,
        DialogKind::Question,
        message_text(locales, language, "dialogs"@, "delete_confirm_title"@),
        fill(message_text(locales, language, "dialogs"@, "delete_confirm_msg"@), account),
    )
}

fn text(locales: &Locales, language: &str, section: &str, key: &str) -> (r: String)
    requires
        locales.is_valid(),
    ensures
        r@ == message_text(*locales, language@, section@, key@),
{
    get_message(locales, language, section, key)
}

fn filled(template: String, value: &str) -> (r: String)
    ensures
        r@ == fill(template@, value@),
{
    proof {
        reveal_strlit("{}");
    }
    replace_str(template.as_str(), "{}", value)
}

/// The error shown when the game could not be started.
pub fn launch_failed_dialog(locales: &Locales, language: &str, error: &str) -> (r: Dialog)
    requires
        locales.is_valid(),
    ensures
        is_launch_failed_dialog(r, *locales, language@, error@),
{
    Dialog {
        kind: DialogKind::Error,
        title: text(locales, language, "common", "error"),
        message: filled(text(locales, language, "notifications", "launch_failed"), error),
    }
}

/// A plain error with the common error title.
pub fn error_dialog(locales: &Locales, language: &str, error: &str) -> (r: Dialog)
    requires
        locales.is_valid(),
    ensures
        is_error_dialog(r, *locales, language@, error@),
{
    Dialog { kind: DialogKind::Error, title: text(locales, language, "common", "error"), message: String::from_str(error) }
}

/// The settings after path detection: each path that was found replaces
/// the remembered one. The flag tells whether anything was found.
pub fn apply_detected_paths(settings: AppSettings, session: Result<String, String>, game: Result<String, String>) -> (r: (AppSettings, bool))
    ensures
        r.0.session_path@ == match session {
            Ok(p) => p@,
            Err(_) => settings.session_path@,
        },
        r.0.game_path@ == match game {
            Ok(p) => p@,
            Err(_) => settings.game_path@,
        },
        r.0.language@ == settings.language@,
        r.1 == (session is Ok || game is Ok),
{
    let mut s = settings;
    let mut changed = false;
    match session {
        Ok(p) => {
            s.session_path = p;
            changed = true;
        },
        Err(_) => {},
    }
    match game {
        Ok(p) => {
            s.game_path = p;
            changed = true;
        },
        Err(_) => {},
    }
    (s, changed)
}

/// The outcome of path detection: the two paths now remembered, or the
/// failure when neither was found.
pub fn auto_detect_dialog(locales: &Locales, language: &str, settings: &AppSettings, changed: bool) -> (r: Dialog)
    requires
        locales.is_valid(),
    ensures
        is_auto_detect_dialog(r, *locales, language@, settings.session_path@, settings.game_path@, changed),
{
    let title = text(locales, language, "tray", "auto_detect");
    if changed {
        let first = filled(text(locales, language, "dialogs", "auto_detect_success"), settings.session_path.as_str());
        let message = filled(first, settings.game_path.as_str());
        Dialog { kind: DialogKind::Info, title, message }
    } else {
        Dialog { kind: DialogKind::Error, title, message: text(locales, language, "dialogs", "auto_detect_failed") }
    }
}

/// The remembered paths.
pub fn check_paths_dialog(locales: &Locales, language: &str, settings: &AppSettings) -> (r: Dialog)
    requires
        locales.is_valid(),
    ensures
        is_check_paths_dialog(r, *locales, language@, settings.session_path@, settings.game_path@),
{
    let title = text(locales, language, "tray", "check_paths");
    let first = filled(text(locales, language, "dialogs", "current_paths_msg"), settings.session_path.as_str());
    let message = filled(first, settings.game_path.as_str());
    Dialog { kind: DialogKind::Info, title, message }
}

/// The settings with another interface language.
pub fn apply_language(settings: AppSettings, language: &str) -> (r: AppSettings)
    ensures
        r.session_path@ == settings.session_path@,
        r.game_path@ == settings.game_path@,
        r.language@ == language@,
{
    let mut s = settings;
    s.language = String::from_str(language);
    s
}

/// The outcome of switching to a profile.
pub fn switch_dialog(locales: &Locales, language: &str, account: &str, outcome: &Result<(), String>) -> (r: Dialog)
    requires
        locales.is_valid(),
    ensures
        is_switch_dialog(r, *locales, language@, account@, *outcome),
{
    match outcome {
        Ok(()) => Dialog {
            kind: DialogKind::Info,
            title: text(locales, language, "notifications", "switch_success_title"),
            message: filled(text(locales, language, "notifications", "switch_success_msg"), account),
        },
        Err(e) => Dialog {
            kind: DialogKind::Error,
            title: text(locales, language, "notifications", "switch_failed_title"),
            message: filled(text(locales, language, "notifications", "switch_failed_msg"), e.as_str()),
        },
    }
}

/// The question asked before deleting a profile.
pub fn delete_confirm_dialog(locales: &Locales, language: &str, account: &str) -> (r: Dialog)
    requires
        locales.is_valid(),
    ensures
        is_delete_confirm_dialog(r, *locales, language@, account@),
{
    Dialog {
        kind: DialogKind::Question,
        title: text(locales, language, "dialogs", "delete_confirm_title"),
        message: filled(text(locales, language, "dialogs", "delete_confirm_msg"), account),
    }
}

/// The profile to delete once the question has been answered: the asked-about
/// profile on yes, none on no.
pub fn confirmed_deletion(account: &str, answered_yes: bool) -> (r: Option<String>)
    ensures
        answered_yes ==> (r matches Some(a) && a@ == account@),
        !answered_yes ==> r is None,
{
    if answered_yes {
        Some(String::from_str(account))
    } else {
        None
    }
}

/// Whether a name typed for a new profile can be used: it must hold
/// something besides white space.
pub fn profile_name_accepted(name: &str) -> (r: bool)
    ensures
        r == !is_blank(name@),
{
    !is_blank_str(name)
}

/// The error shown for a blank profile name.
pub fn blank_name_dialog(locales: &Locales, language: &str) -> (r: Dialog)
    requires
        locales.is_valid(),
    ensures
        is_dialog(
            r,
            DialogKind::Error,
            message_text(*locales, language@, "common"@, "error"@),
            message_text(*locales, language@, "dialogs"@, "enter_name_error"@),
        ),
{
    Dialog {
        kind: DialogKind::Error,
        title: text(locales, language, "common", "error"),
        message: text(locales, language, "dialogs", "enter_name_error"),
    }
}

/// The outcome of saving the session as a new profile.
pub fn save_profile_dialog(locales: &Locales, language: &str, outcome: &Result<(), String>) -> (r: Dialog)
    requires
        locales.is_valid(),
    ensures
        outcome is Ok ==> is_dialog(
            r,
            DialogKind::Info,
            message_text(*locales, language@, "common"@, "success"@),
            message_text(*locales, language@, "dialogs"@, "save_success_msg"@),
        ),
        outcome matches Err(e) ==> is_dialog(
            r,
            DialogKind::Error,
            message_text(*locales, language@, "common"@, "error"@),
            e@,
        ),
{
    match outcome {
        Ok(()) => Dialog {
            kind: DialogKind::Info,
            title: text(locales, language, "common", "success"),
            message: text(locales, language, "dialogs", "save_success_msg"),
        },
        Err(e) => error_dialog(locales, language, e.as_str()),
    }
}

} // verus!
