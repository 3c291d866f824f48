//! The tray menu: its entries, and what a click on an entry asks for.

use vstd::prelude::*;
use crate::i18n_manager::{get_message, message_text, Locales};
use crate::settings_manager::AppSettings;
use crate::text::{join_text, is_prefix_of, opt_view, starts_with, text_eq};

verus! {

/// What a click on a tray menu entry asks for, found from the entry's id.
pub enum MenuCommand {
    Quit,
    Launch,
    AddProfile,
    SetSessionPath,
    SetGamePath,
    AutoDetectPaths,
    CheckPaths,
    /// Switch the interface to this language.
    SetLanguage(String),
    /// Restore this profile.
    SwitchProfile(String),
    /// Delete this profile (after confirmation).
    DeleteProfile(String),
    /// An id that asks for nothing.
    Ignore,
}

/// The command that an entry id asks for: the fixed ids, then the prefixes
/// `lang:`, `switch:` and `delete:` followed by a language or a profile.
pub open spec fn is_command_for(id: Seq<char>, c: MenuCommand) -> bool {
    if id == "quit"@ {
        c is Quit
    } else if id == "launch"@ {
        c is Launch
    } else if id == "add_profile"@ {
        c is AddProfile
    } else if id == "set_session_path"@ {
        c is SetSessionPath
    } else if id == "set_game_path"@ {
        c is SetGamePath
    } else if id == "auto_detect_paths"@ {
        c is AutoDetectPaths
    } else if id == "check_paths"@ {
        c is CheckPaths
    } else if is_prefix_of("lang:"@, id) {
        c matches MenuCommand::SetLanguage(l) && l@ == id.subrange(5, id.len() as int)
    } else if is_prefix_of("switch:"@, id) {
        c matches MenuCommand::SwitchProfile(n) && n@ == id.subrange(7, id.len() as int)
    } else if is_prefix_of("delete:"@, id) {
        c matches MenuCommand::DeleteProfile(n) && n@ == id.subrange(7, id.len() as int)
    } else {
        c is Ignore
    }
}

fn rest_after(id: &str, n: usize) -> (r: String)
    requires
        n <= id@.len(),
    ensures
        r@ == id@.subrange(n as int, id@.len() as int),
{
    String::from_str(id.substring_char(n, id.unicode_len()))
}

/// The command that the entry `id` asks for.
pub fn parse_menu_command(id: &str) -> (r: MenuCommand)
    ensures
        is_command_for(id@, r),
{
    proof {
        reveal_strlit("lang:");
        reveal_strlit("switch:");
        reveal_strlit("delete:");
    }
    if text_eq(id, "quit") {
        MenuCommand::Quit
    } else if text_eq(id, "launch") {
        MenuCommand::Launch
    } else if text_eq(id, "add_profile") {
        MenuCommand::AddProfile
    } else if text_eq(id, "set_session_path") {
        MenuCommand::SetSessionPath
    } else if text_eq(id, "set_game_path") {
        MenuCommand::SetGamePath
    } else if text_eq(id, "auto_detect_paths") {
        MenuCommand::AutoDetectPaths
    } else if text_eq(id, "check_paths") {
        MenuCommand::CheckPaths
    } else if starts_with(id, "lang:") {
        MenuCommand::SetLanguage(rest_after(id, 5))
    } else if starts_with(id, "switch:") {
        MenuCommand::SwitchProfile(rest_after(id, 7))
    } else if starts_with(id, "delete:") {
        MenuCommand::DeleteProfile(rest_after(id, 7))
    } else {
        MenuCommand::Ignore
    }
}

/// A clickable menu entry: plain (`checked` is `None`) or with a check mark.
pub struct MenuItemModel {
    pub id: String,
    pub label: String,
    pub checked: Option<bool>,
}

/// One element of the tray menu.
pub enum MenuNode {
    Item(MenuItemModel),
    Separator,
    /// A sub-menu with its label and entries.
    Submenu(String, Vec<MenuItemModel>),
}

/// The entry has this id, label and check state.
pub open spec fn is_entry(it: MenuItemModel, id: Seq<char>, label: Seq<char>, checked: Option<bool>) -> bool {
    it.id@ == id && it.label@ == label && it.checked == checked
}

/// The node is a plain entry with this id and label.
pub open spec fn is_plain_node(n: MenuNode, id: Seq<char>, label: Seq<char>) -> bool {
    n matches MenuNode::Item(it) && is_entry(it, id, label, None)
}

/// One check entry per profile, in order, with id `switch:<name>`, the name
/// as label, checked exactly for the active profile.
pub open spec fn is_switch_list(items: Seq<MenuItemModel>, accounts: Seq<Seq<char>>, active: Option<Seq<char>>) -> bool {
    items.len() == accounts.len() && forall|i: int|
        0 <= i < items.len() ==> is_entry(
            #[trigger] items[i],
            "switch:"@ + accounts[i],
            accounts[i],
            Some(active == Some(accounts[i])),
        )
}

/// One plain entry per profile, in order, with id `delete:<name>` and the
/// name as label.
pub open spec fn is_delete_list(items: Seq<MenuItemModel>, accounts: Seq<Seq<char>>) -> bool {
    items.len() == accounts.len() && forall|i: int|
        0 <= i < items.len() ==> is_entry(#[trigger] items[i], "delete:"@ + accounts[i], accounts[i], None)
}

/// A tray label in the settings' language.
pub open spec fn tray_label(locales: Locales, language: Seq<char>, key: Seq<char>) -> Seq<char> {
    message_text(locales, language, "tray"@, key)
}

/// The language entries: English and Korean, checked for the current one.
pub open spec fn is_language_list(items: Seq<MenuItemModel>, language: Seq<char>) -> bool {
    &&& items.len() == 2
    &&& is_entry(items[0], "lang:en"@, "English"@, Some(language == "en"@))
    &&& is_entry(items[1], "lang:ko"@, "한국어"@, Some(language == "ko"@))
}

/// The whole tray menu, from top to bottom: launch; a separator; the
/// profiles to switch to and to remove, and saving the session as a new
/// profile; a separator; path detection and display; a separator; setting
/// the paths and the language; a separator; quit.
pub open spec fn is_tray_menu(
    menu: Seq<MenuNode>,
    accounts: Seq<Seq<char>>,
    active: Option<Seq<char>>,
    language: Seq<char>,
    locales: Locales,
) -> bool {
    &&& menu.len() == 14
    &&& is_plain_node(menu[0], "launch"@, tray_label(locales, language, "launch"@))
    &&& menu[1] is Separator
    &&& (menu[2] matches MenuNode::Submenu(label, items) && label@ == tray_label(locales, language, "profiles"@)
        && is_switch_list(items@, accounts, active))
    &&& (menu[3] matches MenuNode::Submenu(label, items) && label@ == tray_label(locales, language, "remove_profile"@)
        && is_delete_list(items@, accounts))
    &&& is_plain_node(menu[4], "add_profile"@, tray_label(locales, language, "save_session"@))
    &&& menu[5] is Separator
    &&& is_plain_node(menu[6], "auto_detect_paths"@, tray_label(locales, language, "auto_detect"@))
    &&& is_plain_node(menu[7], "check_paths"@, tray_label(locales, language, "check_paths"@))
    &&& menu[8] is Separator
    &&& is_plain_node(menu[9], "set_session_path"@, tray_label(locales, language, "set_session"@))
    &&& is_plain_node(menu[10], "set_game_path"@, tray_label(locales, language, "set_game"@))
    &&& (menu[11] matches MenuNode::Submenu(label, items) && label@ == tray_label(locales, language, "set_language"@)
        && is_language_list(items@, language))
    &&& menu[12] is Separator
    &&& is_plain_node(menu[13], "quit"@, tray_label(locales, language, "quit"@))
}

/// The saved profiles as listed, none when they could not be listed.
pub open spec fn listed_accounts(accounts: Result<Vec<String>, String>) -> Seq<Seq<char>> {
    match accounts {
        Ok(v) => v@.map_values(|s: String| s@),
        Err(_) => Seq::empty(),
    }
}

fn plain_node(id: &str, label: String) -> (r: MenuNode)
    ensures
        is_plain_node(r, id@, label@),
{
    MenuNode::Item(MenuItemModel { id: String::from_str(id), label, checked: None })
}

fn tray_text(locales: &Locales, language: &str, key: &str) -> (r: String)
    requires
        locales.is_valid(),
    ensures
        r@ == tray_label(*locales, language@, key@),
{
    get_message(locales, language, "tray", key)
}

fn active_is(active: &Option<String>, name: &String) -> (r: bool)
    ensures
        r == (opt_view(*active) == Some(name@)),
{
    match active {
        Some(a) => text_eq(a.as_str(), name.as_str()),
        None => false,
    }
}

/// The tray menu for the saved profiles (none when listing them failed),
/// the active profile and the settings' language.
pub fn build_menu(accounts: &Result<Vec<String>, String>, active: &Option<String>, settings: &AppSettings, locales: &Locales) -> (r: Vec<MenuNode>)
    requires
        locales.is_valid(),
    ensures
        is_tray_menu(r@, listed_accounts(*accounts), opt_view(*active), settings.language@, *locales),
{
    let empty: Vec<String> = Vec::new();
    let names = match accounts {
        Ok(v) => v,
        Err(_) => &empty,
    };
    let ghost accs = listed_accounts(*accounts);
    assert(names@.map_values(|s: String| s@) =~= accs);
    let lang = settings.language.as_str();
    proof {
        reveal_strlit("switch:");
        reveal_strlit("delete:");
    }
    let mut switch_items: Vec<MenuItemModel> = Vec::new();
    let mut delete_items: Vec<MenuItemModel> = Vec::new();
    let mut i: usize = 0;
    while i < names.len()
        invariant
            i <= names@.len(),
            accs == names@.map_values(|s: String| s@),
            switch_items@.len() == i,
            delete_items@.len() == i,
            forall|k: int|
                0 <= k < i ==> is_entry(
                    #[trigger] switch_items@[k],
                    "switch:"@ + accs[k],
                    accs[k],
                    Some(opt_view(*active) == Some(accs[k])),
                ),
            forall|k: int| 0 <= k < i ==> is_entry(#[trigger] delete_items@[k], "delete:"@ + accs[k], accs[k], None),
        decreases names@.len() - i,
    {
        let acc = &names[i];
        let is_active = active_is(active, acc);
        switch_items.push(MenuItemModel { id: join_text("switch:", acc.as_str()), label: acc.clone(), checked: Some(is_active) });
        delete_items.push(MenuItemModel { id: join_text("delete:", acc.as_str()), label: acc.clone(), checked: None });
        i = i + 1;
    }
    let mut language_items: Vec<MenuItemModel> = Vec::new();
    language_items.push(MenuItemModel { id: String::from_str("lang:en"), label: String::from_str("English"), checked: Some(text_eq(lang, "en")) });
    language_items.push(MenuItemModel { id: String::from_str("lang:ko"), label: String::from_str("한국어"), checked: Some(text_eq(lang, "ko")) });
    let mut menu: Vec<MenuNode> = Vec::new();
    menu.push(plain_node("launch", tray_text(locales, lang, "launch")));
    menu.push(MenuNode::Separator);
    menu.push(MenuNode::Submenu(tray_text(locales, lang, "profiles"), switch_items));
    menu.push(MenuNode::Submenu(tray_text(locales, lang, "remove_profile"), delete_items));
    menu.push(plain_node("add_profile", tray_text(locales, lang, "save_session")));
    menu.push(MenuNode::Separator);
    menu.push(plain_node("auto_detect_paths", tray_text(locales, lang, "auto_detect")));
    menu.push(plain_node("check_paths", tray_text(locales, lang, "check_paths")));
    menu.push(MenuNode::Separator);
    menu.push(plain_node("set_session_path", tray_text(locales, lang, "set_session")));
    menu.push(plain_node("set_game_path", tray_text(locales, lang, "set_game")));
    menu.push(MenuNode::Submenu(tray_text(locales, lang, "set_language"), language_items));
    menu.push(MenuNode::Separator);
    menu.push(plain_node("quit", tray_text(locales, lang, "quit")));
    menu
}


/// Clicking a profile's switch entry asks to restore exactly that profile:
/// the id `switch:<name>` that the menu gives it parses back to the name,
/// whatever the name holds.
pub proof fn law_switch_entry_parses_back(name: Seq<char>, c: MenuCommand)
    requires
        is_command_for("switch:"@ + name, c),
    ensures
        c matches MenuCommand::SwitchProfile(n) && n@ == name,
{
    reveal_strlit("quit");
    reveal_strlit("launch");
    reveal_strlit("add_profile");
    reveal_strlit("set_session_path");
    reveal_strlit("set_game_path");
    reveal_strlit("auto_detect_paths");
    reveal_strlit("check_paths");
    reveal_strlit("lang:");
    reveal_strlit("switch:");
    reveal_strlit("delete:");
    let id = "switch:"@ + name;
    assert(id[0] == 's' && id[1] == 'w');
    assert(id != "quit"@ && id != "launch"@ && id != "add_profile"@ && id != "check_paths"@) by {
        assert("quit"@[0] == 'q' && "launch"@[0] == 'l' && "add_profile"@[0] == 'a' && "check_paths"@[0] == 'c');
    }
    assert(id != "set_session_path"@ && id != "set_game_path"@ && id != "auto_detect_paths"@) by {
        assert("set_session_path"@[1] == 'e' && "set_game_path"@[1] == 'e' && "auto_detect_paths"@[0] == 'a');
    }
    assert(!is_prefix_of("lang:"@, id)) by {
        if is_prefix_of("lang:"@, id) {
            assert(id.subrange(0, 5)[0] == id[0]);
        }
    }
    assert(is_prefix_of("switch:"@, id)) by {
        assert(id.subrange(0, 7) =~= "switch:"@);
    }
    assert(id.subrange(7, id.len() as int) =~= name);
}

/// Clicking a profile's remove entry asks to delete exactly that profile.
pub proof fn law_delete_entry_parses_back(name: Seq<char>, c: MenuCommand)
    requires
        is_command_for("delete:"@ + name, c),
    ensures
        c matches MenuCommand::DeleteProfile(n) && n@ == name,
{
    reveal_strlit("quit");
    reveal_strlit("launch");
    reveal_strlit("add_profile");
    reveal_strlit("set_session_path");
    reveal_strlit("set_game_path");
    reveal_strlit("auto_detect_paths");
    reveal_strlit("check_paths");
    reveal_strlit("lang:");
    reveal_strlit("switch:");
    reveal_strlit("delete:");
    let id = "delete:"@ + name;
    assert(id[0] == 'd');
    assert(id != "quit"@ && id != "launch"@ && id != "add_profile"@ && id != "check_paths"@) by {
        assert("quit"@[0] == 'q' && "launch"@[0] == 'l' && "add_profile"@[0] == 'a' && "check_paths"@[0] == 'c');
    }
    assert(id != "set_session_path"@ && id != "set_game_path"@ && id != "auto_detect_paths"@) by {
        assert("set_session_path"@[0] == 's' && "set_game_path"@[0] == 's' && "auto_detect_paths"@[0] == 'a');
    }
    assert(!is_prefix_of("lang:"@, id)) by {
        if is_prefix_of("lang:"@, id) {
            assert(id.subrange(0, 5)[0] == id[0]);
        }
    }
    assert(!is_prefix_of("switch:"@, id)) by {
        if is_prefix_of("switch:"@, id) {
            assert(id.subrange(0, 7)[0] == id[0]);
        }
    }
    assert(is_prefix_of("delete:"@, id)) by {
        assert(id.subrange(0, 7) =~= "delete:"@);
    }
    assert(id.subrange(7, id.len() as int) =~= name);
}

/// Clicking a language entry asks for that language.
pub proof fn law_language_entry_parses_back(c: MenuCommand, d: MenuCommand)
    requires
        is_command_for("lang:en"@, c),
        is_command_for("lang:ko"@, d),
    ensures
        c matches MenuCommand::SetLanguage(l) && l@ == "en"@,
        d matches MenuCommand::SetLanguage(l) && l@ == "ko"@,
{
    reveal_strlit("quit");
    reveal_strlit("launch");
    reveal_strlit("add_profile");
    reveal_strlit("set_session_path");
    reveal_strlit("set_game_path");
    reveal_strlit("auto_detect_paths");
    reveal_strlit("check_paths");
    reveal_strlit("lang:");
    reveal_strlit("switch:");
    reveal_strlit("delete:");
    reveal_strlit("lang:en");
    reveal_strlit("lang:ko");
    reveal_strlit("en");
    reveal_strlit("ko");
    assert("lang:en"@.subrange(0, 5) =~= "lang:"@);
    assert("lang:ko"@.subrange(0, 5) =~= "lang:"@);
    assert("lang:en"@.subrange(5, 7) =~= "en"@);
    assert("lang:ko"@.subrange(5, 7) =~= "ko"@);
    assert("lang:en"@ != "launch"@ && "lang:ko"@ != "launch"@) by {
        assert("launch"@[1] == 'a' && "lang:en"@[4] == ':' && "launch"@.len() == 6);
    }
}

/// The check marks of the profile list follow the active profile: in a menu
/// built while `name` is active, exactly the switch entries of `name` are
/// checked (with `law_restore_activates_profile`, this is the profile that
/// the last successful restore activated).
pub proof fn law_active_profile_is_checked(
    menu: Seq<MenuNode>,
    accounts: Seq<Seq<char>>,
    name: Seq<char>,
    language: Seq<char>,
    locales: Locales,
)
    requires
        is_tray_menu(menu, accounts, Some(name), language, locales),
    ensures
        menu[2] matches MenuNode::Submenu(_, items) && forall|i: int|
            0 <= i < accounts.len() ==> (#[trigger] items@[i]).checked == Some(accounts[i] == name),
{
    if let MenuNode::Submenu(_, items) = menu[2] {
        assert forall|i: int| 0 <= i < accounts.len() implies (#[trigger] items@[i]).checked == Some(accounts[i] == name) by {
            assert(is_entry(items@[i], "switch:"@ + accounts[i], accounts[i], Some(Some(name) == Some(accounts[i]))));
        }
    }
}


/// A switch entry is checked exactly when its profile is the active one:
/// every switch entry carries a check mark, set for the entries of the
/// active profile and clear for all others; with no active profile (as at
/// start-up), none is set.
pub proof fn law_checked_exactly_for_active(
    menu: Seq<MenuNode>,
    accounts: Seq<Seq<char>>,
    active: Option<Seq<char>>,
    language: Seq<char>,
    locales: Locales,
)
    requires
        is_tray_menu(menu, accounts, active, language, locales),
    ensures
        menu[2] matches MenuNode::Submenu(_, items) && items@.len() == accounts.len() && forall|i: int|
            0 <= i < accounts.len() ==> ((#[trigger] items@[i]).checked is Some && (items@[i].checked == Some(
                true,
            ) <==> (active is Some && active.unwrap() == accounts[i]))),
        active is None ==> (menu[2] matches MenuNode::Submenu(_, items) && forall|i: int|
            0 <= i < items@.len() ==> (#[trigger] items@[i]).checked == Some(false)),
{
    if let MenuNode::Submenu(_, items) = menu[2] {
        assert forall|i: int| 0 <= i < accounts.len() implies ((#[trigger] items@[i]).checked is Some && (
        items@[i].checked == Some(true) <==> (active is Some && active.unwrap() == accounts[i]))) by {
            assert(is_entry(items@[i], "switch:"@ + accounts[i], accounts[i], Some(active == Some(accounts[i]))));
        }
        if active is None {
            assert forall|i: int| 0 <= i < items@.len() implies (#[trigger] items@[i]).checked == Some(false) by {
                assert(is_entry(items@[i], "switch:"@ + accounts[i], accounts[i], Some(active == Some(accounts[i]))));
            }
        }
    }
}


/// The language entries are English then Korean, and at most one of them is
/// checked: the one of the settings' language.
pub proof fn law_one_language_checked(
    menu: Seq<MenuNode>,
    accounts: Seq<Seq<char>>,
    active: Option<Seq<char>>,
    language: Seq<char>,
    locales: Locales,
)
    requires
        is_tray_menu(menu, accounts, active, language, locales),
    ensures
        menu[11] matches MenuNode::Submenu(_, items) && items@.len() == 2 && !(items@[0].checked == Some(true)
            && items@[1].checked == Some(true)) && (items@[0].checked == Some(true) <==> language == "en"@) && (
        items@[1].checked == Some(true) <==> language == "ko"@),
{
    reveal_strlit("en");
    reveal_strlit("ko");
    assert("en"@[0] != "ko"@[0]);
}


/// The tray icon as RGBA pixels.
pub struct IconImage {
    pub rgba: Vec<u8>,
    pub width: u32,
    pub height: u32,
}

/// The icon used when the embedded one cannot be decoded: 32 by 32 pixels,
/// every channel of every pixel 128.
pub open spec fn is_fallback_icon(i: IconImage) -> bool {
    i.width == 32 && i.height == 32 && i.rgba@.len() == 32 * 32 * 4 && forall|k: int|
        0 <= k < i.rgba@.len() ==> i.rgba@[k] == 128u8
}

/// Calls the `image` crate on the icon file: `ImageReader::new` over the
/// bytes, `with_guessed_format`, `decode`, then `to_rgba8`, `dimensions` and
/// `into_raw`. Reading from memory cannot fail, so an error comes from
/// decoding; errors give `None`. The pixels are not stated: the format is
/// guessed, and decoded, first through process-wide hooks that any code in
/// the process may register, so the same bytes need not give the same
/// pixels. What holds of every outcome is that the buffer has room for four
/// bytes per pixel: `ImageBuffer::from_raw` refuses a shorter one. That it
/// holds exactly four per pixel is left unsaid: the buffer is sized by the
/// decoder's `total_bytes`, a trait method that a hooked decoder may
/// override, `from_raw` keeps a longer buffer, and `to_rgba8` hands an RGBA
/// image back as a clone, buffer and all. With the crate's own decoders the
/// length is exactly four bytes per pixel.
#[verifier::external_body]
fn decode_rgba(bytes: &[u8]) -> (r: Option<IconImage>)
    ensures
        r matches Some(i) ==> has_room_for_pixels(i),
{
    let reader = match image::ImageReader::new(std::io::Cursor::new(bytes)).with_guessed_format() {
        Ok(reader) => reader,
        Err(_) => return None,
    };
    match reader.decode() {
        Ok(decoded) => {
            let rgba = decoded.to_rgba8();
            let (width, height) = rgba.dimensions();
            Some(IconImage { rgba: rgba.into_raw(), width, height })
        },
        Err(_) => None,
    }
}

/// The icon's pixel data holds at least four bytes (RGBA) per pixel.
pub open spec fn has_room_for_pixels(i: IconImage) -> bool {
    i.rgba@.len() >= 4 * i.width * i.height
}

/// The tray icon from the bytes of the icon file: what `icon_image` makes
/// of the `image` crate's decoding of them (the decoded image, or a plain
/// grey one when decoding fails). Whatever the decoding gives, the icon's
/// pixel data has room for all its pixels.
pub fn load_icon(bytes: &[u8]) -> (r: IconImage)
    ensures
        has_room_for_pixels(r),
{
    icon_image(decode_rgba(bytes))
}

/// The tray icon, given the decoded icon file: the decoded image, or the
/// plain grey one when decoding failed.
pub fn icon_image(decoded: Option<IconImage>) -> (r: IconImage)
    ensures
        decoded matches Some(d) ==> r == d,
        decoded is None ==> is_fallback_icon(r),
{
    match decoded {
        Some(d) => d,
        None => {
            let mut rgba: Vec<u8> = Vec::new();
            let mut k: usize = 0;
            while k < 32 * 32 * 4
                invariant
                    k <= 32 * 32 * 4,
                    rgba@.len() == k,
                    forall|j: int| 0 <= j < k ==> rgba@[j] == 128u8,
                decreases 32 * 32 * 4 - k,
            {
                rgba.push(128u8);
                k = k + 1;
            }
            IconImage { rgba, width: 32, height: 32 }
        },
    }
}

} // verus!
