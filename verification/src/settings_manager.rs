//! Application settings and their INI persistence.

use vstd::prelude::*;
use configparser::ini::Ini;
use crate::paths::{has_verbatim_prefix, is_join_of, join_path};
use crate::text::{contains_seq, is_lower_ascii, is_trimmed, lacks, opt_view};

verus! {

/// The contents of an INI file: section name, then key, then the value
/// (a key written without a delimiter has no value).
pub type IniSections = Map<Seq<char>, Map<Seq<char>, Option<Seq<char>>>>;

#[verifier::external_type_specification]
#[verifier::external_body]
pub struct ExIni(Ini);

/// The sections that a `configparser` `Ini` holds.
pub uninterp spec fn ini_sections(ini: Ini) -> Map<Seq<char>, Map<Seq<char>, Option<Seq<char>>>>;

/// The `Ini` still has the options that `Ini::new` gives it: case-insensitive
/// names, `;` and `#` comments (also inline), `=` and `:` delimiters, no
/// multi-line values, no cascading to the `default` section.
pub uninterp spec fn ini_has_default_options(ini: Ini) -> bool;

/// What `Ini::read` parses a text into under those default options, or `None`
/// where it reports an error.
pub uninterp spec fn ini_parse(text: Seq<char>) -> Option<Map<Seq<char>, Map<Seq<char>, Option<Seq<char>>>>>;

/// No sections at all.
pub open spec fn no_sections() -> IniSections {
    Map::empty()
}

/// The section `name` of `secs`, empty when absent.
pub open spec fn section_of(secs: IniSections, name: Seq<char>) -> Map<Seq<char>, Option<Seq<char>>> {
    if secs.dom().contains(name) {
        secs[name]
    } else {
        Map::empty()
    }
}

/// The value stored under `section` and `key`, if there is one.
pub open spec fn ini_lookup(secs: IniSections, section: Seq<char>, key: Seq<char>) -> Option<Seq<char>> {
    if secs.dom().contains(section) && secs[section].dom().contains(key) {
        secs[section][key]
    } else {
        None
    }
}

/// A section name that survives being written and read back: lower-case
/// ASCII without comment symbols or line breaks and without surrounding
/// white space.
pub open spec fn is_storable_section_name(s: Seq<char>) -> bool {
    &&& is_lower_ascii(s)
    &&& is_trimmed(s)
    &&& lacks(s, ';') && lacks(s, '#') && lacks(s, '\n') && lacks(s, '\r')
}

/// A key that survives being written and read back: non-empty lower-case
/// ASCII without delimiters, comment symbols or line breaks, without
/// surrounding white space, and not starting like a section header.
pub open spec fn is_storable_key(k: Seq<char>) -> bool {
    &&& k.len() > 0
    &&& k[0] != '['
    &&& is_lower_ascii(k)
    &&& is_trimmed(k)
    &&& lacks(k, '=') && lacks(k, ':') && lacks(k, ';') && lacks(k, '#')
    &&& lacks(k, '\n') && lacks(k, '\r')
}

/// A value text that survives being written and read back: no comment
/// symbols, no line breaks, no surrounding white space.
pub open spec fn is_storable_value(v: Seq<char>) -> bool {
    &&& lacks(v, ';') && lacks(v, '#') && lacks(v, '\n') && lacks(v, '\r')
    &&& is_trimmed(v)
}

/// Sections that `Ini::writes` renders into a text that `Ini::read` parses
/// back into the very same sections.
pub open spec fn is_storable_ini(secs: IniSections) -> bool {
    forall|s: Seq<char>|
        #![trigger secs.dom().contains(s)]
        secs.dom().contains(s) ==> {
            &&& is_storable_section_name(s)
            &&& (s == "default"@ ==> exists|k: Seq<char>| secs[s].dom().contains(k))
            &&& forall|k: Seq<char>|
                #![trigger secs[s].dom().contains(k)]
                secs[s].dom().contains(k) ==> {
                    &&& is_storable_key(k)
                    &&& (secs[s][k] matches Some(v) ==> is_storable_value(v))
                }
        }
}

/// The line that `Ini::writes` gives a key: `key=value`, or the bare key
/// when it has no value.
pub open spec fn key_line(key: Seq<char>, value: Option<Seq<char>>) -> Seq<char> {
    match value {
        Some(v) => key + "="@ + v,
        None => key,
    }
}

/// `text` holds a `[name]` header for every section but `default`, and the
/// line of every key.
pub open spec fn mentions_all(secs: IniSections, text: Seq<char>) -> bool {
    forall|s: Seq<char>|
        #![trigger secs.dom().contains(s)]
        secs.dom().contains(s) ==> {
            &&& (s != "default"@ ==> contains_seq(text, "["@ + s + "]"@))
            &&& forall|k: Seq<char>|
                #![trigger secs[s].dom().contains(k)]
                secs[s].dom().contains(k) ==> contains_seq(text, key_line(k, secs[s][k]))
        }
}

/// Calls `Ini::new`: an empty configuration with the default options.
#[verifier::external_body]
fn ini_new() -> (r: Ini)
    ensures
        ini_sections(r) == no_sections(),
        ini_has_default_options(r),
{
    Ini::new()
}

/// Calls `Ini::read`, which parses `text` and, on success, replaces the
/// stored sections by the parsed ones; on error it leaves them as they were.
/// Its options are never changed. The error text is left unsaid.
#[verifier::external_body]
fn ini_read(ini: &mut Ini, text: String) -> (r: Result<(), String>)
    ensures
        ini_has_default_options(*final(ini)) == ini_has_default_options(*old(ini)),
        ini_has_default_options(*old(ini)) ==> (r is Ok <==> ini_parse(text@) is Some),
        ini_has_default_options(*old(ini)) && r is Ok ==> ini_sections(*final(ini)) == ini_parse(text@).unwrap(),
        r is Err ==> ini_sections(*final(ini)) == ini_sections(*old(ini)),
{
    match ini.read(text) {
        Ok(_) => Ok(()),
        Err(e) => Err(e),
    }
}

/// Calls `Ini::get`. For lower-case ASCII names, case folding leaves them
/// unchanged, and with the default options (no cascading) the result is the
/// stored value, if any.
#[verifier::external_body]
fn ini_get(ini: &Ini, section: &str, key: &str) -> (r: Option<String>)
    requires
        is_lower_ascii(section@),
        is_lower_ascii(key@),
    ensures
        ini_has_default_options(*ini) ==> opt_view(r) == ini_lookup(ini_sections(*ini), section@, key@),
{
    ini.get(section, key)
}

/// Calls `Ini::set`, which stores `value` under `section` and `key`,
/// creating the section when it is missing. The previous value that it
/// returns is dropped.
#[verifier::external_body]
fn ini_set(ini: &mut Ini, section: &str, key: &str, value: Option<String>)
    requires
        is_lower_ascii(section@),
        is_lower_ascii(key@),
    ensures
        ini_has_default_options(*final(ini)) == ini_has_default_options(*old(ini)),
        ini_sections(*final(ini)) == ini_sections(*old(ini)).insert(
            section@,
            section_of(ini_sections(*old(ini)), section@).insert(key@, opt_view(value)),
        ),
{
    ini.set(section, key, value);
}

/// Calls `Ini::writes`. The order of sections and keys in the text follows
/// a `HashMap` and so is left unsaid; what the source shows is that, for
/// storable sections and the default options, `Ini::read` parses the text
/// back into the same sections (`default` keys first without a header, then
/// `[name]` headers each followed by `key=value` lines). Whatever the
/// sections hold, with the default options (no multi-line values) every
/// header and key line is written out.
#[verifier::external_body]
fn ini_writes(ini: &Ini) -> (r: String)
    ensures
        ini_has_default_options(*ini) ==> mentions_all(ini_sections(*ini), r@),
        ini_has_default_options(*ini) && is_storable_ini(ini_sections(*ini)) ==> ini_parse(r@) == Some(
            ini_sections(*ini),
        ),
{
    ini.writes()
}

/// The three paths and the language that the tool remembers.
#[derive(Clone, Debug)]
pub struct AppSettings {
    pub session_path: String,
    pub game_path: String,
    pub language: String,
}

/// The text of each setting.
pub struct SettingsModel {
    pub session_path: Seq<char>,
    pub game_path: Seq<char>,
    pub language: Seq<char>,
}

impl View for AppSettings {
    type V = SettingsModel;

    open spec fn view(&self) -> SettingsModel {
        SettingsModel {
            session_path: self.session_path@,
            game_path: self.game_path@,
            language: self.language@,
        }
    }
}

impl Default for AppSettings {
    fn default() -> (r: AppSettings)
        ensures
            r.session_path@ == Seq::<char>::empty(),
            r.game_path@ == Seq::<char>::empty(),
            r.language@ == Seq::<char>::empty(),
    {
        AppSettings { session_path: String::new(), game_path: String::new(), language: String::new() }
    }
}

/// The settings used when no settings file can be read: no paths, English.
pub open spec fn fallback_settings() -> SettingsModel {
    SettingsModel { session_path: Seq::empty(), game_path: Seq::empty(), language: "en"@ }
}

/// A looked-up value, or the empty text.
pub open spec fn or_empty(v: Option<Seq<char>>) -> Seq<char> {
    match v {
        Some(t) => t,
        None => Seq::empty(),
    }
}

/// The settings read from the text of a settings file (`None` when the file
/// could not be read): the `paths` section's `session_path`, `game_path` and
/// `language`, with empty paths and English for what is missing, and the
/// fallback settings when the text does not parse.
pub open spec fn settings_from_text(text: Option<Seq<char>>) -> SettingsModel {
    match text {
        None => fallback_settings(),
        Some(t) => match ini_parse(t) {
            None => fallback_settings(),
            Some(secs) => settings_from_sections(secs),
        },
    }
}

/// The settings held by parsed sections: the `paths` section's
/// `session_path`, `game_path` and `language`, with empty paths and English
/// for what is missing.
pub open spec fn settings_from_sections(secs: IniSections) -> SettingsModel {
    SettingsModel {
        session_path: or_empty(ini_lookup(secs, "paths"@, "session_path"@)),
        game_path: or_empty(ini_lookup(secs, "paths"@, "game_path"@)),
        language: match ini_lookup(secs, "paths"@, "language"@) {
            Some(l) => l,
            None => "en"@,
        },
    }
}

/// The sections in which settings are stored: all three in `paths`.
pub open spec fn settings_sections(s: SettingsModel) -> IniSections {
    map![
        "paths"@ => map![
            "session_path"@ => Some(s.session_path),
            "game_path"@ => Some(s.game_path),
            "language"@ => Some(s.language),
        ],
    ]
}

/// Settings whose three texts can be stored and read back unchanged.
pub open spec fn is_storable_settings(s: SettingsModel) -> bool {
    is_storable_value(s.session_path) && is_storable_value(s.game_path) && is_storable_value(s.language)
}

/// The settings used when no settings file can be read.
pub fn default_settings() -> (r: AppSettings)
    ensures
        r@ == fallback_settings(),
{
    AppSettings { session_path: String::new(), game_path: String::new(), language: String::from_str("en") }
}

fn value_or_empty(v: Option<String>) -> (r: String)
    ensures
        r@ == or_empty(opt_view(v)),
{
    match v {
        Some(t) => t,
        None => String::new(),
    }
}

/// Reads the settings from the text of the settings file, `None` standing
/// for a file that could not be read.
pub fn load_settings(ini_text: Option<String>) -> (r: AppSettings)
    ensures
        r@ == settings_from_text(opt_view(ini_text)),
{
    match ini_text {
        None => default_settings(),
        Some(text) => {
            let mut config = ini_new();
            match ini_read(&mut config, text) {
                Err(_) => default_settings(),
                Ok(()) => settings_from_ini(&config),
            }
        },
    }
}

/// The settings held by a parsed settings file (with `Ini::new`'s options).
pub fn settings_from_ini(config: &Ini) -> (r: AppSettings)
    requires
        ini_has_default_options(*config),
    ensures
        r@ == settings_from_sections(ini_sections(*config)),
{
    proof {
        reveal_strlit("paths");
        reveal_strlit("session_path");
        reveal_strlit("game_path");
        reveal_strlit("language");
    }
    let session_path = value_or_empty(ini_get(config, "paths", "session_path"));
    let game_path = value_or_empty(ini_get(config, "paths", "game_path"));
    let language = match ini_get(config, "paths", "language") {
        Some(l) => l,
        None => String::from_str("en"),
    };
    AppSettings { session_path, game_path, language }
}


/// Loading what saving wrote gives back the settings that were saved,
/// whenever each of the three texts is storable: reading a settings text
/// that parses into the stored sections yields exactly those settings.
pub proof fn law_settings_round_trip(s: SettingsModel, text: Seq<char>)
    requires
        ini_parse(text) == Some(settings_sections(s)),
    ensures
        settings_from_text(Some(text)) == s,
{
    reveal_strlit("paths");
    reveal_strlit("session_path");
    reveal_strlit("game_path");
    reveal_strlit("language");
    let secs = settings_sections(s);
    assert("session_path"@.len() != "game_path"@.len());
    assert("session_path"@.len() != "language"@.len());
    assert("game_path"@.len() != "language"@.len());
    assert(ini_lookup(secs, "paths"@, "session_path"@) == Some(s.session_path));
    assert(ini_lookup(secs, "paths"@, "game_path"@) == Some(s.game_path));
    assert(ini_lookup(secs, "paths"@, "language"@) == Some(s.language));
}

proof fn lemma_settings_sections_storable(s: SettingsModel)
    requires
        is_storable_settings(s),
    ensures
        is_storable_ini(settings_sections(s)),
{
    reveal_strlit("paths");
    reveal_strlit("session_path");
    reveal_strlit("game_path");
    reveal_strlit("language");
    reveal_strlit("default");
    let secs = settings_sections(s);
    assert forall|n: Seq<char>| #![trigger secs.dom().contains(n)] secs.dom().contains(n) implies {
        &&& is_storable_section_name(n)
        &&& (n == "default"@ ==> exists|k: Seq<char>| secs[n].dom().contains(k))
        &&& forall|k: Seq<char>|
            #![trigger secs[n].dom().contains(k)]
            secs[n].dom().contains(k) ==> {
                &&& is_storable_key(k)
                &&& (secs[n][k] matches Some(v) ==> is_storable_value(v))
            }
    } by {
        assert(n == "paths"@);
        assert(n != "default"@);
        assert forall|k: Seq<char>| #![trigger secs[n].dom().contains(k)] secs[n].dom().contains(k) implies {
            &&& is_storable_key(k)
            &&& (secs[n][k] matches Some(v) ==> is_storable_value(v))
        } by {
            assert(k == "session_path"@ || k == "game_path"@ || k == "language"@);
        }
    }
}

/// The text holds the `[paths]` header and the lines of the three settings.
pub open spec fn mentions_settings(s: SettingsModel, text: Seq<char>) -> bool {
    &&& contains_seq(text, "[paths]"@)
    &&& contains_seq(text, "session_path="@ + s.session_path)
    &&& contains_seq(text, "game_path="@ + s.game_path)
    &&& contains_seq(text, "language="@ + s.language)
}

/// The text that saving writes to the settings file: the three settings in
/// the `paths` section, always all written out. Whenever the settings are
/// storable, the text parses back into exactly those sections, so loading it
/// gives the same settings. (The order of the lines follows a hash map and
/// is not fixed.)
pub fn save_settings(settings: &AppSettings) -> (r: String)
    ensures
        mentions_settings(settings@, r@),
        is_storable_settings(settings@) ==> ini_parse(r@) == Some(settings_sections(settings@)),
        is_storable_settings(settings@) ==> settings_from_text(Some(r@)) == settings@,
{
    let mut config = ini_new();
    proof {
        reveal_strlit("paths");
        reveal_strlit("session_path");
        reveal_strlit("game_path");
        reveal_strlit("language");
    }
    ini_set(&mut config, "paths", "session_path", Some(settings.session_path.clone()));
    ini_set(&mut config, "paths", "game_path", Some(settings.game_path.clone()));
    ini_set(&mut config, "paths", "language", Some(settings.language.clone()));
    assert(ini_sections(config) =~~= settings_sections(settings@));
    let text = ini_writes(&config);
    proof {
        reveal_strlit("default");
        reveal_strlit("[paths]");
        reveal_strlit("=");
        reveal_strlit("[");
        reveal_strlit("]");
        reveal_strlit("session_path=");
        reveal_strlit("game_path=");
        reveal_strlit("language=");
        let secs = settings_sections(settings@);
        assert(secs.dom().contains("paths"@));
        assert("paths"@ != "default"@);
        assert("["@ + "paths"@ + "]"@ =~= "[paths]"@);
        assert(secs["paths"@].dom().contains("session_path"@));
        assert(secs["paths"@].dom().contains("game_path"@));
        assert(secs["paths"@].dom().contains("language"@));
        assert("session_path"@ + "="@ + settings@.session_path =~= "session_path="@ + settings@.session_path);
        assert("game_path"@ + "="@ + settings@.game_path =~= "game_path="@ + settings@.game_path);
        assert("language"@ + "="@ + settings@.language =~= "language="@ + settings@.language);
        if is_storable_settings(settings@) {
            lemma_settings_sections_storable(settings@);
            law_settings_round_trip(settings@, text@);
        }
    }
    text
}

/// The settings file inside the application data directory.
pub fn get_ini_path(app_data_dir: &str) -> (r: String)
    ensures
        !has_verbatim_prefix(app_data_dir@) ==> is_join_of(r@, app_data_dir@, "settings.ini"@),
{
    proof {
        reveal_strlit("settings.ini");
    }
    join_path(app_data_dir, "settings.ini")
}

/// The application data directory, `TA-TA/switch` inside the documents
/// directory: `TA-TA` is joined onto the documents directory, then `switch`
/// onto that. (The second join is stated only when the first gives no
/// verbatim prefix, which it can for a documents directory like `\\?`.)
pub fn app_data_dir_in(documents_dir: &str) -> (r: String)
    ensures
        !has_verbatim_prefix(documents_dir@) ==> exists|mid: Seq<char>|
            #[trigger] is_join_of(mid, documents_dir@, "TA-TA"@) && (!has_verbatim_prefix(mid) ==> is_join_of(
                r@,
                mid,
                "switch"@,
            )),
{
    proof {
        reveal_strlit("TA-TA");
        reveal_strlit("switch");
    }
    let base = join_path(documents_dir, "TA-TA");
    let r = join_path(&base, "switch");
    assert(!has_verbatim_prefix(documents_dir@) ==> is_join_of(base@, documents_dir@, "TA-TA"@) && (!has_verbatim_prefix(base@) ==> is_join_of(r@, base@, "switch"@)));
    r
}


} // verus!
