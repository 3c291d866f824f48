//! What the tray does after a menu click, as a state machine: the host
//! performs each action (reading or writing settings, starting the game,
//! showing a message box, ...) and hands back what came of it; the machine
//! decides the next action from that.

use vstd::prelude::*;
use crate::dialogs::{
    apply_detected_paths, apply_language, auto_detect_dialog, check_paths_dialog, confirmed_deletion,
    delete_confirm_dialog, error_dialog, is_auto_detect_dialog, is_check_paths_dialog,
    is_delete_confirm_dialog, is_error_dialog, is_launch_failed_dialog, is_switch_dialog,
    launch_failed_dialog, switch_dialog, Dialog,
};
use crate::i18n_manager::{get_message, message_text, Locales};
use crate::settings_manager::{AppSettings, SettingsModel};
use crate::tray_menu::MenuCommand;

verus! {

/// Which remembered path a file picker sets.
#[derive(Clone, Copy, PartialEq, Eq, Structural, Debug)]
pub enum PathSetting {
    Session,
    Game,
}

/// What the host is asked to do next.
pub enum TrayAction {
    /// Stop the message loop: the tool quits.
    StopDispatch,
    /// Open the window that saves the current session as a new profile.
    OpenAddProfile,
    /// Read the settings file; answered by `Loaded`.
    LoadSettings,
    /// Start the game executable at this path; answered by `Launched`.
    LaunchGame(String),
    /// Let the user pick a folder, under this title; answered by `Picked`.
    PickFolder(String),
    /// Let the user pick an executable, under this title and with this file
    /// filter; answered by `Picked`.
    PickExecutable(String, String),
    /// Look for the session folder and the game; answered by `Detected`.
    DetectPaths,
    /// Write these settings; answered by `Saved`.
    SaveSettings(AppSettings),
    /// Restore the profile (second) into the session folder (first);
    /// answered by `Restored`.
    RestoreProfile(String, String),
    /// Delete this profile; answered by `Deleted`.
    DeleteProfile(String),
    /// Ask this yes/no question; answered by `Answered`.
    Ask(Dialog),
    /// Show this message; answered by `Acknowledged`.
    Show(Dialog),
    /// Rebuild the tray menu from the saved state; answered by `Acknowledged`.
    RebuildMenu,
    /// Nothing more is to be done for this click.
    Finish,
}

/// What came of the last action.
pub enum TrayEvent {
    /// A message was shown, or the menu rebuilt.
    Acknowledged,
    /// The settings that were read.
    Loaded(AppSettings),
    /// Whether the game started, or why not.
    Launched(Result<(), String>),
    /// The path the user picked, or none when the picker was cancelled.
    Picked(Option<String>),
    /// The session folder and the game executable that were found, or why not.
    Detected(Result<String, String>, Result<String, String>),
    /// Whether the settings were written, or why not.
    Saved(Result<(), String>),
    /// Whether the profile was restored, or why not.
    Restored(Result<(), String>),
    /// The answer to the question: yes or no.
    Answered(bool),
    /// Whether the profile was deleted, or why not.
    Deleted(Result<(), String>),
}

/// Where the handling of a click stands: which answer it waits for, and what
/// it has to remember until then.
pub enum TrayFlow {
    /// Nothing is in progress.
    Done,
    /// Launching: waits for the settings.
    LaunchLoading,
    /// Launching: waits for the game to start; holds the interface language.
    Launching(String),
    /// Setting a path: waits for the settings, to title the picker.
    PickerLoading(PathSetting),
    /// Setting a path: waits for the user's pick.
    Picking(PathSetting),
    /// Setting a path: waits for the settings, to change them; holds the pick.
    PickedLoading(PathSetting, String),
    /// Detecting paths: waits for the settings.
    DetectLoading,
    /// Detecting paths: waits for the search; holds the settings.
    Detecting(AppSettings),
    /// Detecting paths: waits for the write; holds the message to show after.
    DetectSaving(Dialog),
    /// Showing the paths: waits for the settings.
    CheckLoading,
    /// Changing the language: waits for the settings; holds the new language.
    LanguageLoading(String),
    /// Changing the language: waits for the write.
    LanguageSaving,
    /// Changing the language failed: waits for the settings, to word the
    /// error; holds the error.
    LanguageErrorLoading(String),
    /// Switching profile: waits for the settings; holds the profile.
    SwitchLoading(String),
    /// Switching profile: waits for the restore; holds the profile and the
    /// interface language.
    Restoring(String, String),
    /// Deleting a profile: waits for the settings; holds the profile.
    DeleteLoading(String),
    /// Deleting a profile: waits for the answer; holds the profile and the
    /// interface language.
    Confirming(String, String),
    /// Deleting a profile: waits for the deletion; holds the interface language.
    Deleting(String),
    /// Waits for a write, then ends.
    Saving,
    /// Waits for a message to be closed, then ends.
    ShowingThenFinish,
    /// Waits for a message to be closed, then rebuilds the menu.
    ShowingThenRebuild,
    /// Waits for the menu to be rebuilt, then ends.
    Rebuilding,
}

/// An action after which nothing is waited for.
pub open spec fn is_final_action(a: TrayAction) -> bool {
    a is StopDispatch || a is OpenAddProfile || a is Finish
}

/// The click is handled: nothing more to do, nothing in progress.
pub open spec fn ends(after: TrayFlow, action: TrayAction) -> bool {
    after is Done && action is Finish
}

/// A remembered path after detection: the one found, else the one before.
pub open spec fn detected(current: Seq<char>, found: Result<String, String>) -> Seq<char> {
    match found {
        Ok(p) => p@,
        Err(_) => current,
    }
}

/// The settings with the picked path in the picked place.
pub open spec fn with_picked_path(s: SettingsModel, which: PathSetting, path: Seq<char>) -> SettingsModel {
    match which {
        PathSetting::Session => SettingsModel { session_path: path, ..s },
        PathSetting::Game => SettingsModel { game_path: path, ..s },
    }
}

/// How a click starts: the first action for each command, and what is then
/// waited for.
pub open spec fn is_start(command: MenuCommand, after: TrayFlow, action: TrayAction) -> bool {
    match command {
        MenuCommand::Quit => after is Done && action is StopDispatch,
        MenuCommand::Launch => after is LaunchLoading && action is LoadSettings,
        MenuCommand::AddProfile => after is Done && action is OpenAddProfile,
        MenuCommand::SetSessionPath => after == TrayFlow::PickerLoading(PathSetting::Session)
            && action is LoadSettings,
        MenuCommand::SetGamePath => after == TrayFlow::PickerLoading(PathSetting::Game) && action is LoadSettings,
        MenuCommand::AutoDetectPaths => after is DetectLoading && action is LoadSettings,
        MenuCommand::CheckPaths => after is CheckLoading && action is LoadSettings,
        MenuCommand::SetLanguage(lang) => (after matches TrayFlow::LanguageLoading(l) && l@ == lang@)
            && action is LoadSettings,
        MenuCommand::SwitchProfile(name) => (after matches TrayFlow::SwitchLoading(a) && a@ == name@)
            && action is LoadSettings,
        MenuCommand::DeleteProfile(name) => (after matches TrayFlow::DeleteLoading(a) && a@ == name@)
            && action is LoadSettings,
        MenuCommand::Ignore => ends(after, action),
    }
}

/// One step: from where the click stood and what came of the last action,
/// where it stands now and what is to be done next. An answer that the
/// flow does not wait for ends it.
pub open spec fn is_step(before: TrayFlow, event: TrayEvent, locales: Locales, after: TrayFlow, action: TrayAction) -> bool {
    match before {
        TrayFlow::LaunchLoading => match event {
            TrayEvent::Loaded(s) => (action matches TrayAction::LaunchGame(p) && p@ == s.game_path@)
                && (after matches TrayFlow::Launching(l) && l@ == s.language@),
            _ => ends(after, action),
        },
        TrayFlow::Launching(lang) => match event {
            TrayEvent::Launched(Ok(_)) => ends(after, action),
            TrayEvent::Launched(Err(e)) => (action matches TrayAction::Show(d)
                && is_launch_failed_dialog(d, locales, lang@, e@)) && after is ShowingThenFinish,
            _ => ends(after, action),
        },
        TrayFlow::PickerLoading(which) => match event {
            TrayEvent::Loaded(s) => after == TrayFlow::Picking(which) && match which {
                PathSetting::Session => action matches TrayAction::PickFolder(t)
                    && t@ == message_text(locales, s.language@, "dialogs"@, "select_session_dir"@),
                PathSetting::Game => action matches TrayAction::PickExecutable(t, f)
                    && t@ == message_text(locales, s.language@, "dialogs"@, "select_game_exe"@)
                    && f@ == message_text(locales, s.language@, "dialogs"@, "exe_filter"@),
            },
            _ => ends(after, action),
        },
        TrayFlow::Picking(which) => match event {
            TrayEvent::Picked(Some(p)) => action is LoadSettings && (after matches TrayFlow::PickedLoading(w, q)
                && w == which && q@ == p@),
            _ => ends(after, action),
        },
        TrayFlow::PickedLoading(which, p) => match event {
            TrayEvent::Loaded(s) => (action matches TrayAction::SaveSettings(t) && t@ == with_picked_path(
                s@,
                which,
                p@,
            )) && after is Saving,
            _ => ends(after, action),
        },
        TrayFlow::DetectLoading => match event {
            TrayEvent::Loaded(s) => action is DetectPaths && (after matches TrayFlow::Detecting(t) && t@ == s@),
            _ => ends(after, action),
        },
        TrayFlow::Detecting(s) => match event {
            TrayEvent::Detected(session, game) => {
                let session_path = detected(s.session_path@, session);
                let game_path = detected(s.game_path@, game);
                if session is Ok || game is Ok {
                    (action matches TrayAction::SaveSettings(t) && t@ == SettingsModel {
                        session_path,
                        game_path,
                        language: s.language@,
                    }) && (after matches TrayFlow::DetectSaving(d) && is_auto_detect_dialog(
                        d,
                        locales,
                        s.language@,
                        session_path,
                        game_path,
                        true,
                    ))
                } else {
                    (action matches TrayAction::Show(d) && is_auto_detect_dialog(
                        d,
                        locales,
                        s.language@,
                        session_path,
                        game_path,
                        false,
                    )) && after is ShowingThenFinish
                }
            },
            _ => ends(after, action),
        },
        TrayFlow::DetectSaving(d) => match event {
            TrayEvent::Saved(_) => action == TrayAction::Show(d) && after is ShowingThenFinish,
            _ => ends(after, action),
        },
        TrayFlow::CheckLoading => match event {
            TrayEvent::Loaded(s) => (action matches TrayAction::Show(d) && is_check_paths_dialog(
                d,
                locales,
                s.language@,
                s.session_path@,
                s.game_path@,
            )) && after is ShowingThenFinish,
            _ => ends(after, action),
        },
        TrayFlow::LanguageLoading(lang) => match event {
            TrayEvent::Loaded(s) => (action matches TrayAction::SaveSettings(t) && t@ == SettingsModel {
                language: lang@,
                ..s@
            }) && after is LanguageSaving,
            _ => ends(after, action),
        },
        TrayFlow::LanguageSaving => match event {
            TrayEvent::Saved(Ok(_)) => action is RebuildMenu && after is Rebuilding,
            TrayEvent::Saved(Err(e)) => action is LoadSettings && (after matches TrayFlow::LanguageErrorLoading(m)
                && m@ == e@),
            _ => ends(after, action),
        },
        TrayFlow::LanguageErrorLoading(e) => match event {
            TrayEvent::Loaded(s) => (action matches TrayAction::Show(d) && is_error_dialog(
                d,
                locales,
                s.language@,
                e@,
            )) && after is ShowingThenRebuild,
            _ => ends(after, action),
        },
        TrayFlow::SwitchLoading(name) => match event {
            TrayEvent::Loaded(s) => (action matches TrayAction::RestoreProfile(sp, a) && sp@ == s.session_path@
                && a@ == name@) && (after matches TrayFlow::Restoring(a, l) && a@ == name@ && l@
                == s.language@),
            _ => ends(after, action),
        },
        TrayFlow::Restoring(name, lang) => match event {
            TrayEvent::Restored(outcome) => (action matches TrayAction::Show(d) && is_switch_dialog(
                d,
                locales,
                lang@,
                name@,
                outcome,
            )) && after is ShowingThenRebuild,
            _ => ends(after, action),
        },
        TrayFlow::DeleteLoading(name) => match event {
            TrayEvent::Loaded(s) => (action matches TrayAction::Ask(d) && is_delete_confirm_dialog(
                d,
                locales,
                s.language@,
                name@,
            )) && (after matches TrayFlow::Confirming(a, l) && a@ == name@ && l@ == s.language@),
            _ => ends(after, action),
        },
        TrayFlow::Confirming(name, lang) => match event {
            TrayEvent::Answered(true) => (action matches TrayAction::DeleteProfile(a) && a@ == name@) && (
            after matches TrayFlow::Deleting(l) && l@ == lang@),
            _ => ends(after, action),
        },
        TrayFlow::Deleting(lang) => match event {
            TrayEvent::Deleted(Ok(_)) => action is RebuildMenu && after is Rebuilding,
            TrayEvent::Deleted(Err(e)) => (action matches TrayAction::Show(d) && is_error_dialog(
                d,
                locales,
                lang@,
                e@,
            )) && after is ShowingThenRebuild,
            _ => ends(after, action),
        },
        TrayFlow::ShowingThenRebuild => match event {
            TrayEvent::Acknowledged => action is RebuildMenu && after is Rebuilding,
            _ => ends(after, action),
        },
        _ => ends(after, action),
    }
}

/// How many steps a flow in this state takes at most before it is done.
pub open spec fn steps_left(f: TrayFlow) -> nat {
    match f {
        TrayFlow::Done => 0,
        TrayFlow::ShowingThenFinish | TrayFlow::Rebuilding | TrayFlow::Saving => 1,
        TrayFlow::ShowingThenRebuild | TrayFlow::Launching(_) | TrayFlow::DetectSaving(_)
        | TrayFlow::CheckLoading | TrayFlow::PickedLoading(_, _) => 2,
        TrayFlow::LaunchLoading | TrayFlow::Detecting(_) | TrayFlow::Restoring(_, _)
        | TrayFlow::Picking(_) | TrayFlow::Deleting(_) | TrayFlow::LanguageErrorLoading(_) => 3,
        TrayFlow::DetectLoading | TrayFlow::PickerLoading(_) | TrayFlow::SwitchLoading(_)
        | TrayFlow::Confirming(_, _) => 4,
        TrayFlow::DeleteLoading(_) | TrayFlow::LanguageSaving => 5,
        TrayFlow::LanguageLoading(_) => 6,
    }
}

impl TrayFlow {
    /// How the click on `command` starts: what is in progress, and the first
    /// action. A click that needs no answer leaves nothing in progress.
    pub fn start(command: MenuCommand) -> (r: (TrayFlow, TrayAction))
        ensures
            is_start(command, r.0, r.1),
            r.0 is Done <==> is_final_action(r.1),
    {
        match command {
            MenuCommand::Quit => (TrayFlow::Done, TrayAction::StopDispatch),
            MenuCommand::Launch => (TrayFlow::LaunchLoading, TrayAction::LoadSettings),
            MenuCommand::AddProfile => (TrayFlow::Done, TrayAction::OpenAddProfile),
            MenuCommand::SetSessionPath => (TrayFlow::PickerLoading(PathSetting::Session), TrayAction::LoadSettings),
            MenuCommand::SetGamePath => (TrayFlow::PickerLoading(PathSetting::Game), TrayAction::LoadSettings),
            MenuCommand::AutoDetectPaths => (TrayFlow::DetectLoading, TrayAction::LoadSettings),
            MenuCommand::CheckPaths => (TrayFlow::CheckLoading, TrayAction::LoadSettings),
            MenuCommand::SetLanguage(lang) => (TrayFlow::LanguageLoading(lang), TrayAction::LoadSettings),
            MenuCommand::SwitchProfile(name) => (TrayFlow::SwitchLoading(name), TrayAction::LoadSettings),
            MenuCommand::DeleteProfile(name) => (TrayFlow::DeleteLoading(name), TrayAction::LoadSettings),
            MenuCommand::Ignore => (TrayFlow::Done, TrayAction::Finish),
        }
    }

    /// Takes what came of the last action and gives the next one. Each step
    /// brings the flow nearer its end, and it is done exactly when the
    /// action asks for no answer.
    pub fn step(&mut self, event: TrayEvent, locales: &Locales) -> (r: TrayAction)
        requires
            locales.is_valid(),
        ensures
            is_step(*old(self), event, *locales, *final(self), r),
            *old(self) !is Done ==> steps_left(*final(self)) < steps_left(*old(self)),
            *final(self) is Done <==> is_final_action(r),
    {
        let mut before = TrayFlow::Done;
        std::mem::swap(&mut before, self);
        let (after, action) = advance(before, event, locales);
        *self = after;
        action
    }
}

fn finish() -> (r: (TrayFlow, TrayAction))
    ensures
        ends(r.0, r.1),
{
    (TrayFlow::Done, TrayAction::Finish)
}

fn advance(before: TrayFlow, event: TrayEvent, locales: &Locales) -> (r: (TrayFlow, TrayAction))
    requires
        locales.is_valid(),
    ensures
        is_step(before, event, *locales, r.0, r.1),
        before !is Done ==> steps_left(r.0) < steps_left(before),
        r.0 is Done <==> is_final_action(r.1),
{
    match before {
        TrayFlow::LaunchLoading => match event {
            TrayEvent::Loaded(s) => (TrayFlow::Launching(s.language), TrayAction::LaunchGame(s.game_path)),
            _ => finish(),
        },
        TrayFlow::Launching(lang) => match event {
            TrayEvent::Launched(Err(e)) => (
                TrayFlow::ShowingThenFinish,
                TrayAction::Show(launch_failed_dialog(locales, lang.as_str(), e.as_str())),
            ),
            _ => finish(),
        },
        TrayFlow::PickerLoading(which) => match event {
            TrayEvent::Loaded(s) => {
                let action = match which {
                    PathSetting::Session => TrayAction::PickFolder(
                        get_message(locales, s.language.as_str(), "dialogs", "select_session_dir"),
                    ),
                    PathSetting::Game => TrayAction::PickExecutable(
                        get_message(locales, s.language.as_str(), "dialogs", "select_game_exe"),
                        get_message(locales, s.language.as_str(), "dialogs", "exe_filter"),
                    ),
                };
                (TrayFlow::Picking(which), action)
            },
            _ => finish(),
        },
        TrayFlow::Picking(which) => match event {
            TrayEvent::Picked(Some(p)) => (TrayFlow::PickedLoading(which, p), TrayAction::LoadSettings),
            _ => finish(),
        },
        TrayFlow::PickedLoading(which, p) => match event {
            TrayEvent::Loaded(s) => {
                let mut t = s;
                match which {
                    PathSetting::Session => t.session_path = p,
                    PathSetting::Game => t.game_path = p,
                }
                (TrayFlow::Saving, TrayAction::SaveSettings(t))
            },
            _ => finish(),
        },
        TrayFlow::DetectLoading => match event {
            TrayEvent::Loaded(s) => (TrayFlow::Detecting(s), TrayAction::DetectPaths),
            _ => finish(),
        },
        TrayFlow::Detecting(s) => match event {
            TrayEvent::Detected(session, game) => {
                let language = s.language.clone();
                let (t, changed) = apply_detected_paths(s, session, game);
                let d = auto_detect_dialog(locales, language.as_str(), &t, changed);
                if changed {
                    (TrayFlow::DetectSaving(d), TrayAction::SaveSettings(t))
                } else {
                    (TrayFlow::ShowingThenFinish, TrayAction::Show(d))
                }
            },
            _ => finish(),
        },
        TrayFlow::DetectSaving(d) => match event {
            TrayEvent::Saved(_) => (TrayFlow::ShowingThenFinish, TrayAction::Show(d)),
            _ => finish(),
        },
        TrayFlow::CheckLoading => match event {
            TrayEvent::Loaded(s) => (
                TrayFlow::ShowingThenFinish,
                TrayAction::Show(check_paths_dialog(locales, s.language.as_str(), &s)),
            ),
            _ => finish(),
        },
        TrayFlow::LanguageLoading(lang) => match event {
            TrayEvent::Loaded(s) => (TrayFlow::LanguageSaving, TrayAction::SaveSettings(apply_language(s, lang.as_str()))),
            _ => finish(),
        },
        TrayFlow::LanguageSaving => match event {
            TrayEvent::Saved(Ok(_)) => (TrayFlow::Rebuilding, TrayAction::RebuildMenu),
            TrayEvent::Saved(Err(e)) => (TrayFlow::LanguageErrorLoading(e), TrayAction::LoadSettings),
            _ => finish(),
        },
        TrayFlow::LanguageErrorLoading(e) => match event {
            TrayEvent::Loaded(s) => (
                TrayFlow::ShowingThenRebuild,
                TrayAction::Show(error_dialog(locales, s.language.as_str(), e.as_str())),
            ),
            _ => finish(),
        },
        TrayFlow::SwitchLoading(name) => match event {
            TrayEvent::Loaded(s) => {
                let restored = name.clone();
                (TrayFlow::Restoring(name, s.language), TrayAction::RestoreProfile(s.session_path, restored))
            },
            _ => finish(),
        },
        TrayFlow::Restoring(name, lang) => match event {
            TrayEvent::Restored(outcome) => (
                TrayFlow::ShowingThenRebuild,
                TrayAction::Show(switch_dialog(locales, lang.as_str(), name.as_str(), &outcome)),
            ),
            _ => finish(),
        },
        TrayFlow::DeleteLoading(name) => match event {
            TrayEvent::Loaded(s) => {
                let d = delete_confirm_dialog(locales, s.language.as_str(), name.as_str());
                (TrayFlow::Confirming(name, s.language), TrayAction::Ask(d))
            },
            _ => finish(),
        },
        TrayFlow::Confirming(name, lang) => match event {
            TrayEvent::Answered(yes) => match confirmed_deletion(name.as_str(), yes) {
                Some(a) => (TrayFlow::Deleting(lang), TrayAction::DeleteProfile(a)),
                None => finish(),
            },
            _ => finish(),
        },
        TrayFlow::Deleting(lang) => match event {
            TrayEvent::Deleted(Ok(_)) => (TrayFlow::Rebuilding, TrayAction::RebuildMenu),
            TrayEvent::Deleted(Err(e)) => (
                TrayFlow::ShowingThenRebuild,
                TrayAction::Show(error_dialog(locales, lang.as_str(), e.as_str())),
            ),
            _ => finish(),
        },
        TrayFlow::ShowingThenRebuild => match event {
            TrayEvent::Acknowledged => (TrayFlow::Rebuilding, TrayAction::RebuildMenu),
            _ => finish(),
        },
        _ => finish(),
    }
}

} // verus!
