//! Session profiles: which profile is active, which are saved, and the
//! steps of saving and restoring the game's login session.

use vstd::prelude::*;
use crate::paths::{has_verbatim_prefix, is_join_of, is_relative_everywhere, join_path};
use crate::text::{contains_seq, contains_str, lowercase, opt_view, str_lowercase};

verus! {

/// The profile that was last restored, if any.
pub struct ActiveAccount {
    name: Option<String>,
}

impl View for ActiveAccount {
    type V = Option<Seq<char>>;

    closed spec fn view(&self) -> Option<Seq<char>> {
        opt_view(self.name)
    }
}

impl ActiveAccount {
    /// No profile is active when the tool starts.
    pub fn new() -> (r: ActiveAccount)
        ensures
            r@ is None,
    {
        ActiveAccount { name: None }
    }
}

fn clone_name(o: &Option<String>) -> (r: Option<String>)
    ensures
        opt_view(r) == opt_view(*o),
{
    match o {
        Some(s) => Some(s.clone()),
        None => None,
    }
}

/// The active profile.
pub fn get_active_account(state: &ActiveAccount) -> (r: Option<String>)
    ensures
        opt_view(r) == state@,
{
    clone_name(&state.name)
}

/// Makes `name` the active profile (or none).
pub fn set_active_account(state: &mut ActiveAccount, name: Option<String>)
    ensures
        final(state)@ == opt_view(name),
{
    state.name = name;
}

/// What is active after deleting the profile `name`: nothing if it was the
/// active one, else what was active before.
pub open spec fn active_after_delete(active: Option<Seq<char>>, name: Seq<char>) -> Option<Seq<char>> {
    if active == Some(name) {
        None
    } else {
        active
    }
}

/// Finishes deleting the profile `account_name`, given how removing its
/// backup directory went (`Ok` also when there was none). A failed removal
/// is reported and changes nothing; otherwise the profile stops being the
/// active one if it was.
pub fn delete_account(state: &mut ActiveAccount, account_name: &str, removal: Result<(), String>) -> (r: Result<(), String>)
    ensures
        removal is Err ==> (r == removal && final(state)@ == old(state)@),
        removal is Ok ==> (r is Ok && final(state)@ == active_after_delete(old(state)@, account_name@)),
{
    match removal {
        Err(e) => Err(e),
        Ok(()) => {
            let matches = match &state.name {
                Some(n) => crate::text::text_eq(n.as_str(), account_name),
                None => false,
            };
            if matches {
                state.name = None;
            }
            Ok(())
        },
    }
}

/// The process name of the game, compared in lower case.
pub open spec fn game_process_marker() -> Seq<char> {
    "endfield.exe"@
}

/// Some running process, lower-cased, has the game's executable name in it.
pub open spec fn game_is_running(process_names: Seq<String>) -> bool {
    exists|i: int| 0 <= i < process_names.len() && contains_seq(str_lowercase(process_names[i]@), game_process_marker())
}

/// Whether the game runs does not depend on where its process stands in the
/// list: a list runs the game exactly when one of its parts does.
pub proof fn law_game_found_anywhere(a: Seq<String>, b: Seq<String>)
    ensures
        game_is_running(a + b) <==> (game_is_running(a) || game_is_running(b)),
{
    let ab = a + b;
    if game_is_running(ab) {
        let i = choose|i: int| 0 <= i < ab.len() && contains_seq(str_lowercase(ab[i]@), game_process_marker());
        if i < a.len() {
            assert(ab[i] == a[i]);
        } else {
            assert(ab[i] == b[i - a.len()]);
        }
    }
    if game_is_running(a) {
        let i = choose|i: int| 0 <= i < a.len() && contains_seq(str_lowercase(a[i]@), game_process_marker());
        assert(ab[i] == a[i]);
    }
    if game_is_running(b) {
        let i = choose|i: int| 0 <= i < b.len() && contains_seq(str_lowercase(b[i]@), game_process_marker());
        assert(ab[a.len() + i] == b[i]);
    }
}

/// One process is the game exactly when its name, lower-cased, holds
/// `endfield.exe`; no processes, no game.
pub proof fn law_single_process_is_the_game(name: String)
    ensures
        game_is_running(seq![name]) <==> contains_seq(str_lowercase(name@), "endfield.exe"@),
        !game_is_running(Seq::<String>::empty()),
{
    if contains_seq(str_lowercase(name@), "endfield.exe"@) {
        assert(seq![name][0] == name);
    }
}

/// Whether the game is running, given the names of the running processes.
pub fn is_game_running(process_names: &Vec<String>) -> (r: bool)
    ensures
        r == game_is_running(process_names@),
{
    let mut i: usize = 0;
    while i < process_names.len()
        invariant
            i <= process_names@.len(),
            forall|j: int| 0 <= j < i ==> !contains_seq(str_lowercase(process_names@[j]@), game_process_marker()),
        decreases process_names@.len() - i,
    {
        let lower = lowercase(process_names[i].as_str());
        if contains_str(lower.as_str(), "endfield.exe") {
            return true;
        }
        i = i + 1;
    }
    false
}

/// The backups directory inside the application data directory.
pub fn get_backups_dir(app_data_dir: &str) -> (r: String)
    ensures
        !has_verbatim_prefix(app_data_dir@) ==> is_join_of(r@, app_data_dir@, "backups"@),
{
    proof {
        reveal_strlit("backups");
    }
    join_path(app_data_dir, "backups")
}

/// `p` is `base` joined with `name` wherever the join is stated.
pub open spec fn is_path_under(p: Seq<char>, base: Seq<char>, name: Seq<char>) -> bool {
    is_relative_everywhere(name) && !has_verbatim_prefix(base) ==> is_join_of(p, base, name)
}

/// The backup directory of one profile.
pub fn account_dir(backups_dir: &str, account_name: &str) -> (r: String)
    ensures
        is_path_under(r@, backups_dir@, account_name@),
{
    join_path(backups_dir, account_name)
}

/// One entry of a directory listing.
pub struct DirEntryInfo {
    /// The entry is a directory (following links).
    pub is_dir: bool,
    /// The entry's file name, when it is valid Unicode.
    pub name: Option<String>,
    /// The entry's full path.
    pub path: String,
}

/// The outcome of listing a directory.
pub enum DirListing {
    /// The directory does not exist.
    Missing,
    /// Listing failed with this error.
    Unreadable(String),
    /// The entries, `None` for one that could not be read.
    Entries(Vec<Option<DirEntryInfo>>),
}

/// The name of an entry that is a readable directory with a Unicode name.
pub open spec fn dir_name_of(e: Option<DirEntryInfo>) -> Option<Seq<char>> {
    match e {
        Some(info) => if info.is_dir {
            opt_view(info.name)
        } else {
            None
        },
        None => None,
    }
}

/// The names of the directories among `entries`, in listing order.
pub open spec fn dir_names(entries: Seq<Option<DirEntryInfo>>) -> Seq<Seq<char>>
    decreases entries.len(),
{
    if entries.len() == 0 {
        Seq::empty()
    } else {
        let rest = dir_names(entries.drop_last());
        match dir_name_of(entries.last()) {
            Some(n) => rest.push(n),
            None => rest,
        }
    }
}

/// The saved profiles, given the listing of the backups directory: none
/// when it does not exist, the listing error when it cannot be read, and
/// else the names of its sub-directories in listing order.
pub fn get_saved_accounts(listing: &DirListing) -> (r: Result<Vec<String>, String>)
    ensures
        listing is Missing ==> (r matches Ok(v) && v@.len() == 0),
        listing matches DirListing::Unreadable(e) ==> (r matches Err(f) && f@ == e@),
        listing matches DirListing::Entries(es) ==> (r matches Ok(v) && v@.map_values(|s: String| s@) == dir_names(es@)),
{
    match listing {
        DirListing::Missing => Ok(Vec::new()),
        DirListing::Unreadable(e) => Err(e.clone()),
        DirListing::Entries(es) => {
            let mut out: Vec<String> = Vec::new();
            let mut i: usize = 0;
            while i < es.len()
                invariant
                    i <= es@.len(),
                    out@.map_values(|s: String| s@) == dir_names(es@.subrange(0, i as int)),
                decreases es@.len() - i,
            {
                assert(es@.subrange(0, i + 1).drop_last() =~= es@.subrange(0, i as int));
                match &es[i] {
                    Some(info) => {
                        if info.is_dir {
                            match &info.name {
                                Some(n) => {
                                    out.push(n.clone());
                                },
                                None => {},
                            }
                        }
                    },
                    None => {},
                }
                assert(out@.map_values(|s: String| s@) =~= dir_names(es@.subrange(0, i + 1)));
                i = i + 1;
            }
            assert(es@.subrange(0, es@.len() as int) =~= es@);
            Ok(out)
        },
    }
}


/// Listing nothing gives no profile.
pub proof fn law_empty_listing_has_no_profile()
    ensures
        dir_names(Seq::<Option<DirEntryInfo>>::empty()) == Seq::<Seq<char>>::empty(),
{
}

/// Every readable directory with a Unicode name is a profile, whatever its
/// name holds: one more such entry at the end of a listing adds exactly its
/// name at the end of the profiles.
pub proof fn law_named_directory_is_listed(entries: Seq<Option<DirEntryInfo>>, info: DirEntryInfo)
    requires
        info.is_dir,
        info.name is Some,
    ensures
        dir_names(entries.push(Some(info))) == dir_names(entries).push(info.name.unwrap()@),
{
    assert(entries.push(Some(info)).drop_last() =~= entries);
}

/// Anything else in a listing (a file, an unreadable entry, a name that is
/// not Unicode) adds no profile.
pub proof fn law_other_entries_are_skipped(entries: Seq<Option<DirEntryInfo>>, e: Option<DirEntryInfo>)
    requires
        !(e matches Some(info) && info.is_dir && info.name is Some),
    ensures
        dir_names(entries.push(e)) == dir_names(entries),
{
    assert(entries.push(e).drop_last() =~= entries);
}

/// A directory of the listing with a Unicode name is among the profiles,
/// whatever characters the name holds.
pub proof fn law_every_named_directory_is_a_profile(entries: Seq<Option<DirEntryInfo>>, i: int, info: DirEntryInfo)
    requires
        0 <= i < entries.len(),
        entries[i] == Some(info),
        info.is_dir,
        info.name is Some,
    ensures
        dir_names(entries).contains(info.name.unwrap()@),
{
    law_listed_directory_is_a_profile(entries, i);
}

/// A profile saved in the backups directory shows in the list: a readable
/// sub-directory of the listing with a Unicode name is among the saved
/// profiles.
pub proof fn law_listed_directory_is_a_profile(entries: Seq<Option<DirEntryInfo>>, i: int)
    requires
        0 <= i < entries.len(),
        dir_name_of(entries[i]) is Some,
    ensures
        dir_names(entries).contains(dir_name_of(entries[i]).unwrap()),
    decreases entries.len(),
{
    let rest = entries.drop_last();
    if i < entries.len() - 1 {
        law_listed_directory_is_a_profile(rest, i);
        let n = dir_name_of(entries[i]).unwrap();
        assert(rest[i] == entries[i]);
        let k = choose|k: int| 0 <= k < dir_names(rest).len() && dir_names(rest)[k] == n;
        match dir_name_of(entries.last()) {
            Some(m) => {
                assert(dir_names(entries)[k] == n);
            },
            None => {},
        }
    } else {
        let n = dir_name_of(entries[i]).unwrap();
        assert(dir_names(entries)[dir_names(entries).len() - 1] == n);
    }
}

/// A deleted profile does not show in the list: a name that no readable
/// sub-directory of the listing carries is not among the saved profiles.
pub proof fn law_unlisted_name_is_no_profile(entries: Seq<Option<DirEntryInfo>>, name: Seq<char>)
    requires
        forall|i: int| 0 <= i < entries.len() ==> dir_name_of(#[trigger] entries[i]) != Some(name),
    ensures
        !dir_names(entries).contains(name),
    decreases entries.len(),
{
    if entries.len() > 0 {
        let rest = entries.drop_last();
        assert forall|i: int| 0 <= i < rest.len() implies dir_name_of(#[trigger] rest[i]) != Some(name) by {
            assert(rest[i] == entries[i]);
        }
        law_unlisted_name_is_no_profile(rest, name);
        assert(dir_name_of(entries[entries.len() - 1]) != Some(name));
        if dir_names(entries).contains(name) {
            let k = choose|k: int| 0 <= k < dir_names(entries).len() && dir_names(entries)[k] == name;
            match dir_name_of(entries.last()) {
                Some(m) => {
                    if k < dir_names(rest).len() {
                        assert(dir_names(rest).contains(name));
                    }
                },
                None => {
                    assert(dir_names(rest).contains(name));
                },
            }
        }
    }
}

/// File contents by path, as far as a transfer's copies see them.
pub type FileContents = Map<Seq<char>, Seq<u8>>;

/// The files after copying `from` over `to`, when `from` exists.
pub open spec fn after_copy(files: FileContents, from: Seq<char>, to: Seq<char>) -> FileContents {
    if files.dom().contains(from) {
        files.insert(to, files[from])
    } else {
        files
    }
}

/// Restoring a profile brings back the session file that saving stored:
/// when the save copied session file `i` from the session directory into the
/// backup, the backup copy was left alone since, and the restore copies it
/// back between the same two paths, the session file again holds what it
/// held when it was saved. (Both copies join the same directories with the
/// same file name; that the two joins give the same text is taken from the
/// caller, as the separator a join uses is the platform's.)
pub proof fn law_restore_brings_back_saved_file(
    session: Seq<char>,
    backup: Seq<char>,
    i: int,
    save_from: Seq<char>,
    save_to: Seq<char>,
    at_save: FileContents,
    at_restore: FileContents,
)
    requires
        copy_ends(TransferKind::Save, session, backup, i, save_from, save_to),
        copy_ends(TransferKind::Load, session, backup, i, save_to, save_from),
        at_save.dom().contains(save_from),
        at_restore.dom().contains(save_to),
        at_restore[save_to] == after_copy(at_save, save_from, save_to)[save_to],
    ensures
        after_copy(at_restore, save_to, save_from)[save_from] == at_save[save_from],
{
}

/// Which way session files are copied.
#[derive(Clone, Copy, PartialEq, Eq, Structural, Debug)]
pub enum TransferKind {
    /// From the game's session directory into the profile's backup.
    Save,
    /// From the profile's backup into the game's session directory.
    Load,
}

/// Where a session transfer stands: what it waits for next.
#[derive(Clone, Copy, PartialEq, Eq, Structural, Debug)]
pub enum TransferStep {
    /// The names of the running processes.
    CheckGame,
    /// The backups directory.
    ResolveBackups,
    /// Whether the profile's backup exists (restoring only).
    CheckBackup,
    /// The outcome of creating the profile's backup directory (saving only).
    CreateDir,
    /// Whether the session file with this index exists at the source.
    CheckSource(usize),
    /// The outcome of copying the session file with this index.
    Copy(usize),
    /// Nothing: the transfer is over.
    Done,
}

/// What the caller learnt from carrying out the last action.
pub enum TransferEvent {
    /// The names of the running processes.
    Processes(Vec<String>),
    /// The backups directory.
    BackupsDir(String),
    /// Whether the path asked about exists.
    Exists(bool),
    /// The outcome of creating a directory or copying a file.
    Completed(Result<(), String>),
}

/// What the caller must do next.
pub enum TransferAction {
    /// List the running processes.
    ListProcesses,
    /// Find (and create if needed) the backups directory.
    LocateBackups,
    /// Tell whether this path exists.
    CheckExists(String),
    /// Create this directory and its parents.
    CreateDir(String),
    /// Copy the first file over the second.
    CopyFile(String, String),
    /// Stop with this outcome; on success of a restore, the named profile
    /// becomes the active one first.
    Finish(Result<(), String>, Option<String>),
}

/// A save or restore of the game's login session for one profile.
pub struct SessionTransfer {
    kind: TransferKind,
    session_path: String,
    account_name: String,
    account_dir: String,
    step: TransferStep,
}

/// How many session files are copied.
pub open spec fn session_file_count() -> int {
    2
}

/// The session files, in the order in which they are copied.
pub open spec fn session_file(i: int) -> Seq<char> {
    if i == 0 {
        "gf_login_cache"@
    } else {
        "gf_login_cache.crc"@
    }
}

/// The name of session file `i`.
pub fn session_file_name(i: usize) -> (r: &'static str)
    requires
        i < 2,
    ensures
        r@ == session_file(i as int),
{
    if i == 0 {
        "gf_login_cache"
    } else {
        "gf_login_cache.crc"
    }
}

/// The message given when the game is running.
pub open spec fn game_running_message(kind: TransferKind) -> Seq<char> {
    match kind {
        TransferKind::Save => "Cannot save session while game is running. Please close Endfield first."@,
        TransferKind::Load => "Cannot switch profiles while game is running. Please close Endfield first."@,
    }
}

/// The message given when a profile has no backup to restore.
pub open spec fn backup_missing_message() -> Seq<char> {
    "Account backup not found"@
}

/// How many steps a transfer can still take from this step at most; every
/// step lowers it, so every transfer ends.
pub open spec fn steps_left(step: TransferStep) -> int {
    match step {
        TransferStep::CheckGame => 7,
        TransferStep::ResolveBackups => 6,
        TransferStep::CheckBackup => 5,
        TransferStep::CreateDir => 5,
        TransferStep::CheckSource(i) => 4 - 2 * i,
        TransferStep::Copy(i) => 3 - 2 * i,
        TransferStep::Done => 0,
    }
}

/// The event that the step waits for.
pub open spec fn accepts(step: TransferStep, event: TransferEvent) -> bool {
    match step {
        TransferStep::CheckGame => event is Processes,
        TransferStep::ResolveBackups => event is BackupsDir,
        TransferStep::CheckBackup => event is Exists,
        TransferStep::CreateDir => event is Completed,
        TransferStep::CheckSource(_) => event is Exists,
        TransferStep::Copy(_) => event is Completed,
        TransferStep::Done => false,
    }
}

/// Source and destination of session file `i`: from the session directory
/// into the backup when saving, the other way when restoring. Each is the
/// directory joined with the file's name.
pub open spec fn copy_ends(kind: TransferKind, session: Seq<char>, backup: Seq<char>, i: int, from: Seq<char>, to: Seq<char>) -> bool {
    match kind {
        TransferKind::Save => is_path_under(from, session, session_file(i)) && is_path_under(to, backup, session_file(i)),
        TransferKind::Load => is_path_under(from, backup, session_file(i)) && is_path_under(to, session, session_file(i)),
    }
}

/// The action that ends a transfer successfully: a restore activates its
/// profile.
pub open spec fn is_success(kind: TransferKind, name: Seq<char>, act: TransferAction) -> bool {
    act matches TransferAction::Finish(res, activate) && res is Ok && match kind {
        TransferKind::Save => activate is None,
        TransferKind::Load => opt_view(activate) == Some(name),
    }
}

/// An action that ends a transfer with the error `msg`, activating nothing.
pub open spec fn is_failure(act: TransferAction, msg: Seq<char>) -> bool {
    act matches TransferAction::Finish(res, activate) && activate is None && (res matches Err(e) && e@ == msg)
}

impl SessionTransfer {
    pub closed spec fn kind(&self) -> TransferKind {
        self.kind
    }

    pub closed spec fn session_path(&self) -> Seq<char> {
        self.session_path@
    }

    pub closed spec fn account_name(&self) -> Seq<char> {
        self.account_name@
    }

    /// The profile's backup directory, once the backups directory is known.
    pub closed spec fn account_dir(&self) -> Seq<char> {
        self.account_dir@
    }

    pub closed spec fn stage(&self) -> TransferStep {
        self.step
    }

    /// The step is one that a transfer can be in.
    pub open spec fn is_valid(&self) -> bool {
        &&& (self.stage() matches TransferStep::CheckSource(i) ==> i < session_file_count())
        &&& (self.stage() matches TransferStep::Copy(i) ==> i < session_file_count())
        &&& (self.stage() is CheckBackup ==> self.kind() == TransferKind::Load)
        &&& (self.stage() is CreateDir ==> self.kind() == TransferKind::Save)
    }

    /// The step that checks session file `i`, or the end of the transfer.
    fn next_file(&mut self, i: usize) -> (act: TransferAction)
        requires
            old(self).is_valid(),
            i <= 2,
        ensures
            final(self).kind() == old(self).kind(),
            final(self).session_path() == old(self).session_path(),
            final(self).account_name() == old(self).account_name(),
            final(self).account_dir() == old(self).account_dir(),
            final(self).is_valid(),
            i < 2 ==> final(self).stage() == TransferStep::CheckSource(i) && (act matches TransferAction::CheckExists(p)
                && match old(self).kind() {
                TransferKind::Save => is_path_under(p@, old(self).session_path(), session_file(i as int)),
                TransferKind::Load => is_path_under(p@, old(self).account_dir(), session_file(i as int)),
            }),
            i == 2 ==> final(self).stage() == TransferStep::Done && is_success(old(self).kind(), old(self).account_name(), act),
    {
        if i < 2 {
            self.step = TransferStep::CheckSource(i);
            let base = match self.kind {
                TransferKind::Save => self.session_path.as_str(),
                TransferKind::Load => self.account_dir.as_str(),
            };
            TransferAction::CheckExists(join_path(base, session_file_name(i)))
        } else {
            self.step = TransferStep::Done;
            match self.kind {
                TransferKind::Save => TransferAction::Finish(Ok(()), None),
                TransferKind::Load => TransferAction::Finish(Ok(()), Some(self.account_name.clone())),
            }
        }
    }

    /// Carries the transfer one step further with the outcome of the last
    /// action, and says what to do next:
    /// - after the process list: stop with the "game is running" error when
    ///   the game runs, else locate the backups directory;
    /// - after the backups directory: the profile's backup directory is that
    ///   directory joined with the profile name; saving creates it, restoring
    ///   checks that it exists (and stops with "Account backup not found"
    ///   when it does not);
    /// - the session files are then taken in order: each is copied when it
    ///   exists at the source and skipped otherwise;
    /// - a failure to create the directory or to copy stops the transfer
    ///   with that error;
    /// - after the last file the transfer succeeds, and a restore activates
    ///   its profile.
    pub fn step(&mut self, event: TransferEvent) -> (act: TransferAction)
        requires
            old(self).is_valid(),
            accepts(old(self).stage(), event),
        ensures
            final(self).is_valid(),
            0 <= steps_left(final(self).stage()) < steps_left(old(self).stage()),
            final(self).kind() == old(self).kind(),
            final(self).session_path() == old(self).session_path(),
            final(self).account_name() == old(self).account_name(),
            !(old(self).stage() is ResolveBackups) ==> final(self).account_dir() == old(self).account_dir(),
            match (old(self).stage(), event) {
                (TransferStep::CheckGame, TransferEvent::Processes(names)) => if game_is_running(names@) {
                    final(self).stage() is Done && is_failure(act, game_running_message(old(self).kind()))
                } else {
                    final(self).stage() is ResolveBackups && act is LocateBackups
                },
                (TransferStep::ResolveBackups, TransferEvent::BackupsDir(b)) => {
                    &&& is_path_under(final(self).account_dir(), b@, old(self).account_name())
                    &&& match old(self).kind() {
                        TransferKind::Save => final(self).stage() is CreateDir && (act matches TransferAction::CreateDir(d) && d@ == final(self).account_dir()),
                        TransferKind::Load => final(self).stage() is CheckBackup && (act matches TransferAction::CheckExists(d) && d@ == final(self).account_dir()),
                    }
                },
                (TransferStep::CheckBackup, TransferEvent::Exists(e)) => if e {
                    final(self).stage() == TransferStep::CheckSource(0) && (act matches TransferAction::CheckExists(p)
                        && is_path_under(p@, old(self).account_dir(), session_file(0)))
                } else {
                    final(self).stage() is Done && is_failure(act, backup_missing_message())
                },
                (TransferStep::CreateDir, TransferEvent::Completed(res)) => match res {
                    Err(e) => final(self).stage() is Done && is_failure(act, e@),
                    Ok(_) => final(self).stage() == TransferStep::CheckSource(0) && (act matches TransferAction::CheckExists(p)
                        && is_path_under(p@, old(self).session_path(), session_file(0))),
                },
                (TransferStep::CheckSource(i), TransferEvent::Exists(e)) => if e {
                    final(self).stage() == TransferStep::Copy(i) && (act matches TransferAction::CopyFile(from, to)
                        && copy_ends(old(self).kind(), old(self).session_path(), old(self).account_dir(), i as int, from@, to@))
                } else {
                    next_file_or_success(old(self).kind(), old(self).session_path(), old(self).account_dir(), old(self).account_name(), i + 1, final(self).stage(), act)
                },
                (TransferStep::Copy(i), TransferEvent::Completed(res)) => match res {
                    Err(e) => final(self).stage() is Done && is_failure(act, e@),
                    Ok(_) => next_file_or_success(old(self).kind(), old(self).session_path(), old(self).account_dir(), old(self).account_name(), i + 1, final(self).stage(), act),
                },
                _ => false,
            },
    {
        match event {
            TransferEvent::Processes(names) => {
                if is_game_running(&names) {
                    self.step = TransferStep::Done;
                    let msg = match self.kind {
                        TransferKind::Save => String::from_str("Cannot save session while game is running. Please close Endfield first."),
                        TransferKind::Load => String::from_str("Cannot switch profiles while game is running. Please close Endfield first."),
                    };
                    TransferAction::Finish(Err(msg), None)
                } else {
                    self.step = TransferStep::ResolveBackups;
                    TransferAction::LocateBackups
                }
            },
            TransferEvent::BackupsDir(b) => {
                self.account_dir = account_dir(b.as_str(), self.account_name.as_str());
                match self.kind {
                    TransferKind::Save => {
                        self.step = TransferStep::CreateDir;
                        TransferAction::CreateDir(self.account_dir.clone())
                    },
                    TransferKind::Load => {
                        self.step = TransferStep::CheckBackup;
                        TransferAction::CheckExists(self.account_dir.clone())
                    },
                }
            },
            TransferEvent::Exists(e) => {
                match self.step {
                    TransferStep::CheckBackup => {
                        if e {
                            self.next_file(0)
                        } else {
                            self.step = TransferStep::Done;
                            TransferAction::Finish(Err(String::from_str("Account backup not found")), None)
                        }
                    },
                    TransferStep::CheckSource(i) => {
                        if e {
                            self.step = TransferStep::Copy(i);
                            let name = session_file_name(i);
                            let (from, to) = match self.kind {
                                TransferKind::Save => (
                                    join_path(self.session_path.as_str(), name),
                                    join_path(self.account_dir.as_str(), name),
                                ),
                                TransferKind::Load => (
                                    join_path(self.account_dir.as_str(), name),
                                    join_path(self.session_path.as_str(), name),
                                ),
                            };
                            TransferAction::CopyFile(from, to)
                        } else {
                            self.next_file(i + 1)
                        }
                    },
                    _ => unreached(),
                }
            },
            TransferEvent::Completed(res) => {
                match res {
                    Err(e) => {
                        self.step = TransferStep::Done;
                        TransferAction::Finish(Err(e), None)
                    },
                    Ok(()) => {
                        match self.step {
                            TransferStep::CreateDir => self.next_file(0),
                            TransferStep::Copy(i) => self.next_file(i + 1),
                            _ => unreached(),
                        }
                    },
                }
            },
        }
    }
}

/// After session file `i - 1`: session file `i` is checked at the source, or,
/// past the last one, the transfer succeeds.
pub open spec fn next_file_or_success(
    kind: TransferKind,
    session: Seq<char>,
    backup: Seq<char>,
    name: Seq<char>,
    i: int,
    step: TransferStep,
    act: TransferAction,
) -> bool {
    if i < session_file_count() {
        step == TransferStep::CheckSource(i as usize) && (act matches TransferAction::CheckExists(p) && match kind {
            TransferKind::Save => is_path_under(p@, session, session_file(i)),
            TransferKind::Load => is_path_under(p@, backup, session_file(i)),
        })
    } else {
        step is Done && is_success(kind, name, act)
    }
}

/// A restore that finishes successfully makes its profile the active one:
/// carrying out the activation it asks for (with `set_active_account`)
/// leaves exactly that profile reported by `get_active_account`. A save that
/// finishes successfully asks for no activation.
pub proof fn law_restore_activates_profile(transfer: SessionTransfer, act: TransferAction, after: ActiveAccount)
    requires
        is_success(transfer.kind(), transfer.account_name(), act),
        act matches TransferAction::Finish(_, activate) && (activate matches Some(n) ==> after@ == opt_view(Some(n))),
    ensures
        transfer.kind() == TransferKind::Load ==> after@ == Some(transfer.account_name()),
        transfer.kind() == TransferKind::Save ==> act matches TransferAction::Finish(_, None),
{
}

/// Deleting the active profile leaves no profile active; deleting another
/// profile keeps the active one.
pub proof fn law_delete_clears_only_its_own(name: Seq<char>, other: Seq<char>)
    requires
        name != other,
    ensures
        active_after_delete(Some(name), name) is None,
        active_after_delete(Some(name), other) == Some(name),
        active_after_delete(None, other) is None,
{
}

/// Starts saving the game's login session from `session_path` into the
/// profile `account_name`: the first thing to do is to list the processes.
pub fn save_account_session(session_path: &str, account_name: &str) -> (r: (SessionTransfer, TransferAction))
    ensures
        r.0.is_valid(),
        r.0.kind() == TransferKind::Save,
        r.0.session_path() == session_path@,
        r.0.account_name() == account_name@,
        r.0.stage() is CheckGame,
        r.1 is ListProcesses,
{
    (SessionTransfer {
        kind: TransferKind::Save,
        session_path: String::from_str(session_path),
        account_name: String::from_str(account_name),
        account_dir: String::new(),
        step: TransferStep::CheckGame,
    }, TransferAction::ListProcesses)
}

/// Starts restoring the profile `account_name` into the game's session
/// directory `session_path`: the first thing to do is to list the processes.
pub fn load_account_session(session_path: &str, account_name: &str) -> (r: (SessionTransfer, TransferAction))
    ensures
        r.0.is_valid(),
        r.0.kind() == TransferKind::Load,
        r.0.session_path() == session_path@,
        r.0.account_name() == account_name@,
        r.0.stage() is CheckGame,
        r.1 is ListProcesses,
{
    (SessionTransfer {
        kind: TransferKind::Load,
        session_path: String::from_str(session_path),
        account_name: String::from_str(account_name),
        account_dir: String::new(),
        step: TransferStep::CheckGame,
    }, TransferAction::ListProcesses)
}

} // verus!
