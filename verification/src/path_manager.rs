//! Finding the game's session directory and executable.

use vstd::prelude::*;
use crate::account_manager::{DirEntryInfo, DirListing};
use crate::paths::{has_verbatim_prefix, is_join_of, is_parent_outcome, join_path, parent_path};
use crate::text::{
    join_text, contains_seq, contains_str, is_prefix_of, occurs_at, opt_view, starts_with, str_uppercase, trim_char, trimmed,
    uppercase,
};

verus! {

/// Where the game keeps its per-user data, below the user's profile.
pub open spec fn session_root_suffix() -> Seq<char> {
    "AppData\\LocalLow\\Gryphline\\Endfield"@
}

/// The directory that holds the game's session directories.
pub fn session_search_root(user_profile: &str) -> (r: String)
    ensures
        !has_verbatim_prefix(user_profile@) ==> is_join_of(r@, user_profile@, session_root_suffix()),
{
    proof {
        reveal_strlit("AppData\\LocalLow\\Gryphline\\Endfield");
    }
    join_path(user_profile, "AppData\\LocalLow\\Gryphline\\Endfield")
}

/// A directory name that looks like a session directory.
pub open spec fn is_session_dir_name(n: Seq<char>) -> bool {
    is_prefix_of("pre_"@, n) || contains_seq(n, "_"@)
}

/// The entry is a directory whose name looks like a session directory.
pub open spec fn is_session_entry(e: Option<DirEntryInfo>) -> bool {
    e matches Some(info) && info.is_dir && (info.name matches Some(n) && is_session_dir_name(n@))
}

/// The first session-like directory among `entries`, as an index.
pub open spec fn first_session_entry(entries: Seq<Option<DirEntryInfo>>, i: int) -> bool {
    0 <= i < entries.len() && is_session_entry(entries[i]) && forall|j: int| 0 <= j < i ==> !is_session_entry(entries[j])
}

/// Which directories count as session directories: exactly those whose name
/// holds an underscore anywhere, so every directory named `pre_...` counts,
/// whatever follows the prefix.
pub proof fn law_session_directory_names(info: DirEntryInfo)
    ensures
        is_session_entry(Some(info)) <==> (info.is_dir && (info.name matches Some(n) && exists|k: int|
            0 <= k < n@.len() && n@[k] == '_')),
        info.is_dir && (info.name matches Some(n) && n@.len() >= 4 && n@[0] == 'p' && n@[1] == 'r' && n@[2]
            == 'e' && n@[3] == '_') ==> is_session_entry(Some(info)),
{
    reveal_strlit("pre_");
    reveal_strlit("_");
    if let Some(n) = info.name {
        let m = n@;
        if exists|k: int| 0 <= k < m.len() && m[k] == '_' {
            let k = choose|k: int| 0 <= k < m.len() && m[k] == '_';
            assert(occurs_at(m, "_"@, k)) by {
                assert(m.subrange(k, k + 1) =~= "_"@);
            }
        }
        if contains_seq(m, "_"@) {
            let k = choose|k: int| occurs_at(m, "_"@, k);
            assert(m.subrange(k, k + 1)[0] == m[k]);
        }
        if is_prefix_of("pre_"@, m) {
            assert(m.subrange(0, 4)[3] == m[3]);
            assert(m[3] == '_');
        }
        if m.len() >= 4 && m[3] == '_' {
            assert(0 <= 3 < m.len() && m[3] == '_');
        }
    }
}

/// The first directory of the listing whose name starts with `pre_` is the
/// session directory that detection picks, whatever follows the prefix.
pub proof fn law_first_pre_directory_is_picked(es: Seq<Option<DirEntryInfo>>, info: DirEntryInfo, t: Seq<char>)
    requires
        es.len() > 0,
        es[0] == Some(info),
        info.is_dir,
        info.name matches Some(n) && n@ == "pre_"@ + t,
    ensures
        first_session_entry(es, 0),
{
    reveal_strlit("pre_");
    law_session_directory_names(info);
    let n = info.name.unwrap()@;
    assert(n[0] == 'p' && n[1] == 'r' && n[2] == 'e' && n[3] == '_');
}

/// Picks the game's session directory, given the user's profile directory
/// (or the error from looking it up) and the listing of the session search
/// root below it: the first sub-directory whose name starts with `pre_` or
/// holds `_`.
#[verifier::loop_isolation(false)]
pub fn auto_detect_session_path(user_profile: Result<String, String>, listing: &DirListing) -> (r: Result<String, String>)
    ensures
        user_profile matches Err(e) ==> (r matches Err(f) && f@ == e@),
        user_profile is Ok && listing is Missing ==> (r matches Err(f) && f@ == "Endfield data directory not found"@),
        user_profile is Ok ==> (listing matches DirListing::Unreadable(e) ==> (r matches Err(f) && f@ == e@)),
        user_profile is Ok ==> (listing matches DirListing::Entries(es) ==> match r {
            Ok(p) => exists|i: int| first_session_entry(es@, i) && p@ == es@[i]->Some_0.path@,
            Err(f) => f@ == "Could not detect session path"@ && forall|j: int| 0 <= j < es@.len() ==> !is_session_entry(es@[j]),
        }),
{
    match user_profile {
        Err(e) => Err(e),
        Ok(_) => match listing {
            DirListing::Missing => Err(String::from_str("Endfield data directory not found")),
            DirListing::Unreadable(e) => Err(e.clone()),
            DirListing::Entries(es) => {
                let mut i: usize = 0;
                while i < es.len()
                    invariant
                        i <= es@.len(),
                        forall|j: int| 0 <= j < i ==> !is_session_entry(es@[j]),
                    decreases es@.len() - i,
                {
                    match &es[i] {
                        Some(info) => {
                            if info.is_dir {
                                match &info.name {
                                    Some(n) => {
                                        if starts_with(n.as_str(), "pre_") || contains_str(n.as_str(), "_") {
                                            proof {
                                                assert(first_session_entry(es@, i as int));
                                            }
                                            return Ok(info.path.clone());
                                        }
                                    },
                                    None => {},
                                }
                            }
                        },
                        None => {},
                    }
                    i = i + 1;
                }
                Err(String::from_str("Could not detect session path"))
            },
        },
    }
}

/// An uninstall entry from the registry; each value is absent when it
/// could not be read.
pub struct UninstallEntry {
    pub display_name: Option<String>,
    pub install_location: Option<String>,
    pub uninstall_string: Option<String>,
}

/// A value read from the registry, or the empty text.
pub open spec fn value_or_empty(v: Option<String>) -> Seq<char> {
    match v {
        Some(s) => s@,
        None => Seq::empty(),
    }
}

/// The entry's display name, in upper case, holds the query in upper case.
pub open spec fn entry_matches(query: Seq<char>, e: UninstallEntry) -> bool {
    contains_seq(str_uppercase(value_or_empty(e.display_name)), str_uppercase(query))
}

/// The install location that an uninstall entry gives: its
/// `InstallLocation` without surrounding quotes; when that is empty, the
/// parent directory of its `UninstallString` (without quotes), unless it
/// has none or it is empty. The parent is what `Path::parent` gives, as far
/// as that is the same on every platform (see `is_parent_outcome`).
pub open spec fn is_install_location_of(query: Seq<char>, e: UninstallEntry, r: Option<Seq<char>>) -> bool {
    is_location_given_match(entry_matches(query, e), e, r)
}

/// The install location of an uninstall entry, once it is known whether its
/// display name matched: none for an entry that does not match; else its
/// unquoted `InstallLocation` when that is non-empty; else the parent of its
/// unquoted `UninstallString` unless it has none or it is empty.
pub open spec fn is_location_given_match(matched: bool, e: UninstallEntry, r: Option<Seq<char>>) -> bool {
    let loc = trimmed(value_or_empty(e.install_location), '"');
    let uninst = value_or_empty(e.uninstall_string);
    if !matched {
        r is None
    } else if loc.len() > 0 {
        r == Some(loc)
    } else if uninst.len() == 0 {
        r is None
    } else {
        exists|parent: Option<Seq<char>>|
            is_parent_outcome(trimmed(uninst, '"'), parent) && r == non_empty(parent)
    }
}

/// A text, unless it is empty.
pub open spec fn non_empty(t: Option<Seq<char>>) -> Option<Seq<char>> {
    match t {
        Some(s) => if s.len() > 0 {
            Some(s)
        } else {
            None
        },
        None => None,
    }
}

/// The install location of a matching uninstall entry, if it names one.
pub fn install_location_of(query: &str, entry: &UninstallEntry) -> (r: Option<String>)
    ensures
        is_install_location_of(query@, *entry, opt_view(r)),
{
    let empty = String::new();
    let display = match &entry.display_name {
        Some(d) => d,
        None => &empty,
    };
    let upper_name = uppercase(display.as_str());
    let upper_query = uppercase(query);
    install_location_from(upper_name.as_str(), upper_query.as_str(), entry)
}

/// The install location of an uninstall entry, given its display name and
/// the query both in upper case: the entry matches when the name holds the
/// query.
pub fn install_location_from(upper_name: &str, upper_query: &str, entry: &UninstallEntry) -> (r: Option<String>)
    ensures
        is_location_given_match(contains_seq(upper_name@, upper_query@), *entry, opt_view(r)),
{
    let empty = String::new();
    if !contains_str(upper_name, upper_query) {
        return None;
    }
    let loc = match &entry.install_location {
        Some(l) => l,
        None => &empty,
    };
    let location = trim_char(loc.as_str(), '"');
    if location.as_str().unicode_len() > 0 {
        return Some(location);
    }
    let uninst = match &entry.uninstall_string {
        Some(u) => u,
        None => &empty,
    };
    if uninst.as_str().unicode_len() == 0 {
        return None;
    }
    let unquoted = trim_char(uninst.as_str(), '"');
    let parent = parent_path(unquoted.as_str());
    let ghost outcome = opt_view(parent);
    let r = match parent {
        Some(p) => {
            if p.as_str().unicode_len() > 0 {
                Some(p)
            } else {
                None
            }
        },
        None => None,
    };
    assert(is_parent_outcome(trimmed(uninst@, '"'), outcome) && opt_view(r) == non_empty(outcome));
    r
}


/// The locations named by `per`, in order, skipping the entries that name
/// none.
pub open spec fn named_locations(per: Seq<Option<Seq<char>>>) -> Seq<Seq<char>>
    decreases per.len(),
{
    if per.len() == 0 {
        Seq::empty()
    } else {
        let rest = named_locations(per.drop_last());
        match per.last() {
            Some(l) => rest.push(l),
            None => rest,
        }
    }
}

/// The texts of a list of strings.
pub open spec fn texts(v: Seq<String>) -> Seq<Seq<char>> {
    v.map_values(|s: String| s@)
}

/// `locs` are the install locations of the entries matching `query`, in
/// entry order: one per entry that names one.
pub open spec fn is_location_list(query: Seq<char>, entries: Seq<UninstallEntry>, locs: Seq<Seq<char>>) -> bool {
    exists|per: Seq<Option<Seq<char>>>|
        per.len() == entries.len() && (forall|i: int|
            0 <= i < per.len() ==> is_install_location_of(query, #[trigger] entries[i], per[i]))
            && locs == named_locations(per)
}

/// The install locations of all uninstall entries whose display name holds
/// `query` (ignoring case), in the order of the entries.
pub fn find_all_install_locations(query: &str, entries: &Vec<UninstallEntry>) -> (r: Vec<String>)
    ensures
        is_location_list(query@, entries@, texts(r@)),
{
    let mut out: Vec<String> = Vec::new();
    let ghost mut per: Seq<Option<Seq<char>>> = Seq::empty();
    let mut i: usize = 0;
    while i < entries.len()
        invariant
            i <= entries@.len(),
            per.len() == i,
            forall|k: int| 0 <= k < i ==> is_install_location_of(query@, #[trigger] entries@[k], per[k]),
            out@.map_values(|s: String| s@) == named_locations(per),
        decreases entries@.len() - i,
    {
        let found = install_location_of(query, &entries[i]);
        let ghost before = per;
        proof {
            per = per.push(opt_view(found));
            assert(per.drop_last() =~= before);
        }
        match found {
            Some(l) => {
                out.push(l);
            },
            None => {},
        }
        assert(out@.map_values(|s: String| s@) =~= named_locations(per));
        i = i + 1;
    }
    out
}

/// The directories searched from `start`: `start` and its parent, the
/// parent's parent and so on (each as `Path::parent` gives it), four at most,
/// ending early only at a directory without a parent.
pub open spec fn is_ancestor_chain(chain: Seq<Seq<char>>, start: Seq<char>) -> bool {
    &&& 1 <= chain.len() <= 4
    &&& chain[0] == start
    &&& forall|k: int| 0 <= k < chain.len() - 1 ==> is_parent_outcome(#[trigger] chain[k], Some(chain[k + 1]))
    &&& chain.len() < 4 ==> is_parent_outcome(chain[chain.len() - 1], None)
}

/// The directories searched for an Epic Games installation of the game: the
/// launcher's location and up to three of its ancestors.
pub fn epic_search_dirs(location: &str) -> (r: Vec<String>)
    ensures
        is_ancestor_chain(r@.map_values(|s: String| s@), location@),
{
    let mut out: Vec<String> = Vec::new();
    let mut current = String::from_str(location);
    out.push(current.clone());
    let mut depth: usize = 1;
    while depth < 4
        invariant_except_break
            1 <= depth <= 4,
            out@.len() == depth,
            out@[depth - 1]@ == current@,
            1 <= out@.len() <= 4,
            out@[0]@ == location@,
            forall|k: int| 0 <= k < out@.len() - 1 ==> is_parent_outcome(#[trigger] out@[k]@, Some(out@[k + 1]@)),
        ensures
            1 <= out@.len() <= 4,
            out@[0]@ == location@,
            forall|k: int| 0 <= k < out@.len() - 1 ==> is_parent_outcome(#[trigger] out@[k]@, Some(out@[k + 1]@)),
            out@.len() < 4 ==> is_parent_outcome(out@[out@.len() - 1]@, None),
        decreases 4 - depth,
    {
        match parent_path(current.as_str()) {
            Some(p) => {
                out.push(p.clone());
                current = p;
                depth = depth + 1;
            },
            None => {
                break;
            },
        }
    }
    let ghost m = out@.map_values(|s: String| s@);
    assert forall|k: int| 0 <= k < m.len() - 1 implies is_parent_outcome(#[trigger] m[k], Some(m[k + 1])) by {
        assert(is_parent_outcome(out@[k]@, Some(out@[k + 1]@)));
    }
    out
}

/// Where the game lies inside a GRYPHLINK launcher installation.
pub open spec fn gryphlink_game_suffix() -> Seq<char> {
    "games\\Arknights Endfield\\Endfield.exe"@
}

/// Where the game lies inside a directory of an Epic Games installation.
pub open spec fn epic_game_suffix() -> Seq<char> {
    "ArknightsEndfieldgowoU\\games\\EndField Game\\Endfield.exe"@
}

/// The drive letters that are scanned, in order.
pub open spec fn scanned_drive(i: int) -> Seq<char> {
    if i == 0 {
        "C"@
    } else if i == 1 {
        "D"@
    } else if i == 2 {
        "E"@
    } else if i == 3 {
        "F"@
    } else {
        "G"@
    }
}

/// The places below a drive's root where the game is looked for, in order.
pub open spec fn scanned_place(j: int) -> Seq<char> {
    if j == 0 {
        "Program Files\\GRYPHLINK\\games\\Arknights Endfield\\Endfield.exe"@
    } else if j == 1 {
        "GRYPHLINK\\games\\Arknights Endfield\\Endfield.exe"@
    } else if j == 2 {
        "Program Files\\Epic Games\\ArknightsEndfieldgowoU\\games\\EndField Game\\Endfield.exe"@
    } else {
        "Epic Games\\ArknightsEndfieldgowoU\\games\\EndField Game\\Endfield.exe"@
    }
}

/// The `k`-th path of the drive scan: each drive in turn, each place in turn,
/// written `<drive>:\<place>`.
pub open spec fn drive_candidate(k: int) -> Seq<char> {
    scanned_drive(k / 4) + ":\\"@ + scanned_place(k % 4)
}

fn drive_letter(i: usize) -> (r: &'static str)
    requires
        i < 5,
    ensures
        r@ == scanned_drive(i as int),
{
    if i == 0 {
        "C"
    } else if i == 1 {
        "D"
    } else if i == 2 {
        "E"
    } else if i == 3 {
        "F"
    } else {
        "G"
    }
}

fn drive_place(j: usize) -> (r: &'static str)
    requires
        j < 4,
    ensures
        r@ == scanned_place(j as int),
{
    if j == 0 {
        "Program Files\\GRYPHLINK\\games\\Arknights Endfield\\Endfield.exe"
    } else if j == 1 {
        "GRYPHLINK\\games\\Arknights Endfield\\Endfield.exe"
    } else if j == 2 {
        "Program Files\\Epic Games\\ArknightsEndfieldgowoU\\games\\EndField Game\\Endfield.exe"
    } else {
        "Epic Games\\ArknightsEndfieldgowoU\\games\\EndField Game\\Endfield.exe"
    }
}

/// `p` is `base` joined with `suffix` wherever the join is stated.
pub open spec fn is_game_path_in(p: Seq<char>, base: Seq<char>, suffix: Seq<char>) -> bool {
    !has_verbatim_prefix(base) ==> is_join_of(p, base, suffix)
}

/// The paths where the game is looked for, in the order in which they are
/// tried: inside each GRYPHLINK location, inside each Epic Games search
/// directory, then the twenty paths of the drive scan.
pub fn game_path_candidates(gryphlink_locations: &Vec<String>, epic_dirs: &Vec<String>) -> (r: Vec<String>)
    ensures
        is_candidate_list(texts(gryphlink_locations@), texts(epic_dirs@), texts(r@)),
        r@.len() == gryphlink_locations@.len() + epic_dirs@.len() + 20,
        forall|i: int|
            0 <= i < gryphlink_locations@.len() ==> is_game_path_in(
                #[trigger] r@[i]@,
                gryphlink_locations@[i]@,
                gryphlink_game_suffix(),
            ),
        forall|i: int|
            0 <= i < epic_dirs@.len() ==> is_game_path_in(
                #[trigger] r@[gryphlink_locations@.len() + i]@,
                epic_dirs@[i]@,
                epic_game_suffix(),
            ),
        forall|k: int| 0 <= k < 20 ==> #[trigger] r@[gryphlink_locations@.len() + epic_dirs@.len() + k]@ == drive_candidate(k),
{
    let g = gryphlink_locations.len();
    let e = epic_dirs.len();
    let mut out: Vec<String> = Vec::new();
    let mut i: usize = 0;
    while i < g
        invariant
            g == gryphlink_locations@.len(),
            i <= g,
            out@.len() == i,
            forall|k: int| 0 <= k < i ==> is_game_path_in(#[trigger] out@[k]@, gryphlink_locations@[k]@, gryphlink_game_suffix()),
        decreases g - i,
    {
        proof {
            reveal_strlit("games\\Arknights Endfield\\Endfield.exe");
        }
        out.push(join_path(gryphlink_locations[i].as_str(), "games\\Arknights Endfield\\Endfield.exe"));
        i = i + 1;
    }
    let mut i: usize = 0;
    while i < e
        invariant
            g == gryphlink_locations@.len(),
            e == epic_dirs@.len(),
            i <= e,
            out@.len() == g + i,
            forall|k: int| 0 <= k < g ==> is_game_path_in(#[trigger] out@[k]@, gryphlink_locations@[k]@, gryphlink_game_suffix()),
            forall|k: int| 0 <= k < i ==> is_game_path_in(#[trigger] out@[g + k]@, epic_dirs@[k]@, epic_game_suffix()),
        decreases e - i,
    {
        proof {
            reveal_strlit("ArknightsEndfieldgowoU\\games\\EndField Game\\Endfield.exe");
        }
        out.push(join_path(epic_dirs[i].as_str(), "ArknightsEndfieldgowoU\\games\\EndField Game\\Endfield.exe"));
        assert(out@[g + i]@ == out@[out@.len() - 1]@);
        i = i + 1;
    }
    let mut d: usize = 0;
    while d < 5
        invariant
            g == gryphlink_locations@.len(),
            e == epic_dirs@.len(),
            d <= 5,
            out@.len() == g + e + 4 * d,
            forall|k: int| 0 <= k < g ==> is_game_path_in(#[trigger] out@[k]@, gryphlink_locations@[k]@, gryphlink_game_suffix()),
            forall|k: int| 0 <= k < e ==> is_game_path_in(#[trigger] out@[g + k]@, epic_dirs@[k]@, epic_game_suffix()),
            forall|k: int| 0 <= k < 4 * d ==> #[trigger] out@[g + e + k]@ == drive_candidate(k),
        decreases 5 - d,
    {
        let mut j: usize = 0;
        while j < 4
            invariant
                g == gryphlink_locations@.len(),
                e == epic_dirs@.len(),
                d < 5,
                j <= 4,
                out@.len() == g + e + 4 * d + j,
                forall|k: int| 0 <= k < g ==> is_game_path_in(#[trigger] out@[k]@, gryphlink_locations@[k]@, gryphlink_game_suffix()),
                forall|k: int| 0 <= k < e ==> is_game_path_in(#[trigger] out@[g + k]@, epic_dirs@[k]@, epic_game_suffix()),
                forall|k: int| 0 <= k < 4 * d + j ==> #[trigger] out@[g + e + k]@ == drive_candidate(k),
            decreases 4 - j,
        {
            let head = join_text(drive_letter(d), ":\\");
            let path = join_text(head.as_str(), drive_place(j));
            proof {
                let k = 4 * d + j;
                assert(k / 4 == d as int) by (nonlinear_arith)
                    requires
                        k == 4 * d + j,
                        j < 4,
                ;
                assert(k % 4 == j as int) by (nonlinear_arith)
                    requires
                        k == 4 * d + j,
                        j < 4,
                ;
            }
            out.push(path);
            assert(out@[g + e + 4 * d + j]@ == out@[out@.len() - 1]@);
            j = j + 1;
        }
        d = d + 1;
    }
    assert(is_candidate_list(texts(gryphlink_locations@), texts(epic_dirs@), texts(out@))) by {
        let gs = texts(gryphlink_locations@);
        let es = texts(epic_dirs@);
        let rs = texts(out@);
        assert forall|i: int| 0 <= i < gs.len() implies is_game_path_in(#[trigger] rs[i], gs[i], gryphlink_game_suffix()) by {
            assert(is_game_path_in(out@[i]@, gryphlink_locations@[i]@, gryphlink_game_suffix()));
        }
        assert forall|i: int| 0 <= i < es.len() implies is_game_path_in(#[trigger] rs[gs.len() + i], es[i], epic_game_suffix()) by {
            assert(is_game_path_in(out@[g + i]@, epic_dirs@[i]@, epic_game_suffix()));
        }
        assert forall|k: int| 0 <= k < 20 implies #[trigger] rs[gs.len() + es.len() + k] == drive_candidate(k) by {
            assert(out@[g + e + k]@ == drive_candidate(k));
        }
    }
    out
}

/// Before the drive scan come the registry's places, in order: the game
/// inside each GRYPHLINK location, then inside each Epic Games search
/// directory; then exactly twenty drive-scan paths.
pub proof fn law_registry_candidates_come_first(gryphlink: Seq<Seq<char>>, epic_dirs: Seq<Seq<char>>, r: Seq<Seq<char>>)
    requires
        is_candidate_list(gryphlink, epic_dirs, r),
    ensures
        r.len() == gryphlink.len() + epic_dirs.len() + 20,
        forall|i: int|
            0 <= i < gryphlink.len() ==> is_game_path_in(
                #[trigger] r[i],
                gryphlink[i],
                "games\\Arknights Endfield\\Endfield.exe"@,
            ),
        forall|i: int|
            0 <= i < epic_dirs.len() ==> is_game_path_in(
                #[trigger] r[gryphlink.len() + i],
                epic_dirs[i],
                "ArknightsEndfieldgowoU\\games\\EndField Game\\Endfield.exe"@,
            ),
{
}

/// The drive scan covers exactly the drives C, D, E, F and G, in that order,
/// and on each drive the four places in turn: the scan's candidate
/// `4 * d + j` is the `d`-th letter of `CDEFG`, then `:\`, then the `j`-th
/// place. In particular the launcher's default folder on drive E is tried.
pub proof fn law_drive_scan_covers_c_to_g(gryphlink: Seq<Seq<char>>, epic_dirs: Seq<Seq<char>>, r: Seq<Seq<char>>)
    requires
        is_candidate_list(gryphlink, epic_dirs, r),
    ensures
        forall|d: int, j: int|
            0 <= d < 5 && 0 <= j < 4 ==> #[trigger] r[gryphlink.len() + epic_dirs.len() + 4 * d + j] == "CDEFG"@.subrange(
                d,
                d + 1,
            ) + ":\\"@ + seq![
                "Program Files\\GRYPHLINK\\games\\Arknights Endfield\\Endfield.exe"@,
                "GRYPHLINK\\games\\Arknights Endfield\\Endfield.exe"@,
                "Program Files\\Epic Games\\ArknightsEndfieldgowoU\\games\\EndField Game\\Endfield.exe"@,
                "Epic Games\\ArknightsEndfieldgowoU\\games\\EndField Game\\Endfield.exe"@,
            ][j],
        r.contains("E:\\GRYPHLINK\\games\\Arknights Endfield\\Endfield.exe"@),
{
    reveal_strlit("CDEFG");
    reveal_strlit("C");
    reveal_strlit("D");
    reveal_strlit("E");
    reveal_strlit("F");
    reveal_strlit("G");
    reveal_strlit(":\\");
    reveal_strlit("GRYPHLINK\\games\\Arknights Endfield\\Endfield.exe");
    reveal_strlit("E:\\GRYPHLINK\\games\\Arknights Endfield\\Endfield.exe");
    let off: int = (gryphlink.len() + epic_dirs.len()) as int;
    let places = seq![
        "Program Files\\GRYPHLINK\\games\\Arknights Endfield\\Endfield.exe"@,
        "GRYPHLINK\\games\\Arknights Endfield\\Endfield.exe"@,
        "Program Files\\Epic Games\\ArknightsEndfieldgowoU\\games\\EndField Game\\Endfield.exe"@,
        "Epic Games\\ArknightsEndfieldgowoU\\games\\EndField Game\\Endfield.exe"@,
    ];
    assert forall|d: int, j: int| 0 <= d < 5 && 0 <= j < 4 implies #[trigger] r[off + 4 * d + j] == "CDEFG"@.subrange(
        d,
        d + 1,
    ) + ":\\"@ + places[j] by {
        let k = 4 * d + j;
        assert(k / 4 == d && k % 4 == j) by (nonlinear_arith)
            requires
                k == 4 * d + j,
                0 <= j < 4,
        ;
        assert(r[off + k] == drive_candidate(k));
        assert(scanned_drive(d) =~= "CDEFG"@.subrange(d, d + 1));
        assert(scanned_place(j) == places[j]);
    }
    assert(r[off + 9] == drive_candidate(9));
    assert(drive_candidate(9) =~= "E:\\GRYPHLINK\\games\\Arknights Endfield\\Endfield.exe"@);
    assert(r[off + 9] == "E:\\GRYPHLINK\\games\\Arknights Endfield\\Endfield.exe"@);
}

/// The candidate paths, in order: the game inside each GRYPHLINK location,
/// inside each Epic Games search directory, then the drive scan.
pub open spec fn is_candidate_list(gryphlink: Seq<Seq<char>>, epic_dirs: Seq<Seq<char>>, r: Seq<Seq<char>>) -> bool {
    &&& r.len() == gryphlink.len() + epic_dirs.len() + 20
    &&& forall|i: int| 0 <= i < gryphlink.len() ==> is_game_path_in(#[trigger] r[i], gryphlink[i], gryphlink_game_suffix())
    &&& forall|i: int|
        0 <= i < epic_dirs.len() ==> is_game_path_in(#[trigger] r[gryphlink.len() + i], epic_dirs[i], epic_game_suffix())
    &&& forall|k: int| 0 <= k < 20 ==> #[trigger] r[gryphlink.len() + epic_dirs.len() + k] == drive_candidate(k)
}

/// The directories of several chains, one chain after the other.
pub open spec fn concat_chains(chains: Seq<Seq<Seq<char>>>) -> Seq<Seq<char>>
    decreases chains.len(),
{
    if chains.len() == 0 {
        Seq::empty()
    } else {
        concat_chains(chains.drop_last()) + chains.last()
    }
}

/// `dirs` are the Epic Games search directories of the launcher locations
/// `locs`: each location's ancestor chain, in order.
pub open spec fn is_search_dir_list(locs: Seq<Seq<char>>, dirs: Seq<Seq<char>>) -> bool {
    exists|chains: Seq<Seq<Seq<char>>>|
        chains.len() == locs.len() && (forall|i: int| 0 <= i < chains.len() ==> is_ancestor_chain(#[trigger] chains[i], locs[i]))
            && dirs == concat_chains(chains)
}

/// Every path where the game is looked for, in the order in which they are
/// tried, given the uninstall entries of the registry: inside each
/// GRYPHLINK install location; inside each Epic Games Launcher location and
/// up to three of its ancestors; then the drive scan.
pub fn game_search_candidates(entries: &Vec<UninstallEntry>) -> (r: Vec<String>)
    ensures
        exists|gryphlink: Seq<Seq<char>>, launchers: Seq<Seq<char>>, dirs: Seq<Seq<char>>|
            is_location_list("GRYPHLINK"@, entries@, gryphlink) && is_location_list(
                "Epic Games Launcher"@,
                entries@,
                launchers,
            ) && is_search_dir_list(launchers, dirs) && is_candidate_list(gryphlink, dirs, texts(r@)),
{
    let gryphlink = find_all_install_locations("GRYPHLINK", entries);
    let launchers = find_all_install_locations("Epic Games Launcher", entries);
    let mut dirs: Vec<String> = Vec::new();
    let ghost mut chains: Seq<Seq<Seq<char>>> = Seq::empty();
    let mut i: usize = 0;
    while i < launchers.len()
        invariant
            i <= launchers@.len(),
            chains.len() == i,
            forall|k: int| 0 <= k < i ==> is_ancestor_chain(#[trigger] chains[k], launchers@[k]@),
            texts(dirs@) == concat_chains(chains),
        decreases launchers@.len() - i,
    {
        let chain = epic_search_dirs(launchers[i].as_str());
        let ghost before = dirs@;
        let ghost prev = chains;
        proof {
            chains = chains.push(texts(chain@));
            assert(chains.drop_last() =~= prev);
        }
        let mut j: usize = 0;
        while j < chain.len()
            invariant
                j <= chain@.len(),
                dirs@ == before + chain@.subrange(0, j as int),
            decreases chain@.len() - j,
        {
            dirs.push(chain[j].clone());
            assert(dirs@ =~= before + chain@.subrange(0, j + 1));
            j = j + 1;
        }
        assert(chain@.subrange(0, chain@.len() as int) =~= chain@);
        assert(texts(dirs@) =~= concat_chains(chains));
        i = i + 1;
    }
    let r = game_path_candidates(&gryphlink, &dirs);
    proof {
        assert(is_search_dir_list(texts(launchers@), texts(dirs@))) by {
            assert forall|k: int| 0 <= k < chains.len() implies is_ancestor_chain(#[trigger] chains[k], texts(launchers@)[k]) by {
                assert(is_ancestor_chain(chains[k], launchers@[k]@));
            }
        }
    }
    r
}

/// The first candidate that exists, as an index.
pub open spec fn is_first_existing(exists_flags: Seq<bool>, i: int) -> bool {
    0 <= i < exists_flags.len() && exists_flags[i] && forall|j: int| 0 <= j < i ==> !exists_flags[j]
}

/// The game's executable: the first candidate path that exists.
pub fn auto_detect_game_path(candidates: &Vec<String>, exists_flags: &Vec<bool>) -> (r: Result<String, String>)
    requires
        candidates@.len() == exists_flags@.len(),
    ensures
        match r {
            Ok(p) => exists|i: int| is_first_existing(exists_flags@, i) && p@ == candidates@[i]@,
            Err(e) => e@ == "Endfield.exe not found automatically"@ && forall|j: int|
                0 <= j < exists_flags@.len() ==> !exists_flags@[j],
        },
{
    let mut i: usize = 0;
    while i < candidates.len()
        invariant
            candidates@.len() == exists_flags@.len(),
            i <= candidates@.len(),
            forall|j: int| 0 <= j < i ==> !exists_flags@[j],
        decreases candidates@.len() - i,
    {
        if exists_flags[i] {
            assert(is_first_existing(exists_flags@, i as int));
            return Ok(candidates[i].clone());
        }
        i = i + 1;
    }
    Err(String::from_str("Endfield.exe not found automatically"))
}

} // verus!
