//! Localised messages: one table of messages per language, English always
//! present and used for languages without a table.

use vstd::prelude::*;
use serde_json::Value;
use crate::text::{opt_view, text_eq};

verus! {

#[verifier::external_type_specification]
#[verifier::external_body]
pub struct ExJsonValue(Value);

/// A JSON document as plain values (the digits of numbers are not kept).
pub enum JsonModel {
    Null,
    Bool(bool),
    Number,
    Text(Seq<char>),
    Array(Seq<JsonModel>),
    Object(Map<Seq<char>, JsonModel>),
}

/// The JSON document that a `serde_json::Value` holds.
pub uninterp spec fn json_tree(v: Value) -> JsonModel;

/// What `serde_json::from_str::<Value>` parses a text into, `None` where it
/// reports an error.
pub uninterp spec fn json_parse(text: Seq<char>) -> Option<JsonModel>;

/// The member `key` of a JSON object; `Null` when the document is not an
/// object or has no such member (what indexing a `Value` by a string gives).
pub open spec fn json_member(doc: JsonModel, key: Seq<char>) -> JsonModel {
    match doc {
        JsonModel::Object(m) => if m.dom().contains(key) {
            m[key]
        } else {
            JsonModel::Null
        },
        _ => JsonModel::Null,
    }
}

/// The text of a JSON string, `None` for any other document.
pub open spec fn json_text(doc: JsonModel) -> Option<Seq<char>> {
    match doc {
        JsonModel::Text(t) => Some(t),
        _ => None,
    }
}

/// Calls `serde_json::from_str::<Value>`; the parse error is dropped.
#[verifier::external_body]
fn json_from_str(text: &str) -> (r: Option<Value>)
    ensures
        (r is Some) == (json_parse(text@) is Some),
        r matches Some(v) ==> json_tree(v) == json_parse(text@).unwrap(),
{
    match serde_json::from_str::<Value>(text) {
        Ok(v) => Some(v),
        Err(_) => None,
    }
}

/// Calls `Value::default`, which the documentation gives as `Value::Null`.
#[verifier::external_body]
fn json_default() -> (r: Value)
    ensures
        json_tree(r) == JsonModel::Null,
{
    Value::default()
}

/// Calls `Value`'s `Index<&str>`: the member of an object, or a `Null` when
/// the value is no object or lacks the key.
#[verifier::external_body]
fn json_index<'a>(v: &'a Value, key: &str) -> (r: &'a Value)
    ensures
        json_tree(*r) == json_member(json_tree(*v), key@),
{
    &v[key]
}

/// Calls `Value::as_str`: the text of a JSON string, `None` otherwise.
#[verifier::external_body]
fn json_as_str(v: &Value) -> (r: Option<String>)
    ensures
        opt_view(r) == json_text(json_tree(*v)),
{
    match v.as_str() {
        Some(s) => Some(s.to_string()),
        None => None,
    }
}

/// The messages of one language: a JSON document of sections, each an
/// object of keys and texts.
pub struct LocaleTable {
    pub language: String,
    pub messages: Value,
}

/// The messages of the first table of `tables` for `language`.
pub open spec fn table_in(tables: Seq<LocaleTable>, language: Seq<char>) -> Option<JsonModel>
    decreases tables.len(),
{
    if tables.len() == 0 {
        None
    } else if tables[0].language@ == language {
        Some(json_tree(tables[0].messages))
    } else {
        table_in(tables.subrange(1, tables.len() as int), language)
    }
}

/// No two tables are for the same language.
pub open spec fn languages_distinct(tables: Seq<LocaleTable>) -> bool {
    forall|i: int, j: int| 0 <= i < j < tables.len() ==> tables[i].language@ != tables[j].language@
}

/// The localised message tables: a map from language to messages, kept as
/// a vector of tables with distinct languages (vstd specifies no `HashMap`
/// keyed by `String` that proofs can use).
pub struct Locales {
    tables: Vec<LocaleTable>,
}

impl Locales {
    /// The messages for `language`, if it has a table.
    pub closed spec fn table_for(&self, language: Seq<char>) -> Option<JsonModel> {
        table_in(self.tables@, language)
    }

    /// English has a table, and no language has two.
    pub closed spec fn is_valid(&self) -> bool {
        table_in(self.tables@, "en"@) is Some && languages_distinct(self.tables@)
    }

    /// Tables holding only the English messages.
    pub fn new(english: Value) -> (r: Locales)
        ensures
            r.is_valid(),
            r.table_for("en"@) == Some(json_tree(english)),
            forall|l: Seq<char>| l != "en"@ ==> r.table_for(l) is None,
    {
        let table = LocaleTable { language: String::from_str("en"), messages: english };
        let mut tables: Vec<LocaleTable> = Vec::new();
        tables.push(table);
        let r = Locales { tables };
        assert(r.tables@[0].language@ == "en"@);
        assert forall|l: Seq<char>| l != "en"@ implies r.table_for(l) is None by {
            assert(r.tables@.subrange(1, 1) =~= Seq::<LocaleTable>::empty());
            assert(table_in(r.tables@.subrange(1, 1), l) is None);
        }
        assert(r.tables@.subrange(1, 1) =~= Seq::<LocaleTable>::empty());
        r
    }

    /// Sets the messages of `language`, replacing its table if it has one.
    pub fn insert(&mut self, language: String, messages: Value)
        requires
            old(self).is_valid(),
        ensures
            final(self).is_valid(),
            final(self).table_for(language@) == Some(json_tree(messages)),
            forall|l: Seq<char>| l != language@ ==> final(self).table_for(l) == old(self).table_for(l),
    {
        let ghost lang = language@;
        let ghost msgs = json_tree(messages);
        let ghost before = self.tables@;
        let n = self.tables.len();
        let mut i: usize = 0;
        while i < n
            invariant
                n == self.tables@.len(),
                self.tables@ == before,
                i <= n,
                forall|j: int| 0 <= j < i ==> self.tables@[j].language@ != lang,
                lang == language@,
                msgs == json_tree(messages),
                table_in(before, "en"@) is Some,
                languages_distinct(before),
                before == old(self).tables@,
            decreases n - i,
        {
            if text_eq(self.tables[i].language.as_str(), language.as_str()) {
                let table = LocaleTable { language, messages };
                self.tables.set(i, table);
                proof {
                    lemma_table_replace(before, self.tables@, i as int, lang, msgs);
                    assert(languages_distinct(self.tables@)) by {
                        assert forall|a: int, b: int| 0 <= a < b < self.tables@.len() implies self.tables@[a].language@
                            != self.tables@[b].language@ by {
                            assert(before[a].language@ != before[b].language@);
                        }
                    }
                    if lang != "en"@ {
                        assert(table_in(self.tables@, "en"@) == table_in(before, "en"@));
                    }
                }
                return;
            }
            i = i + 1;
        }
        let table = LocaleTable { language, messages };
        self.tables.push(table);
        proof {
            lemma_table_append(before, self.tables@, lang, msgs);
            assert(languages_distinct(self.tables@)) by {
                assert forall|a: int, b: int| 0 <= a < b < self.tables@.len() implies self.tables@[a].language@
                    != self.tables@[b].language@ by {
                    if b < before.len() {
                        assert(before[a].language@ != before[b].language@);
                    } else {
                        assert(before[a].language@ != lang);
                    }
                }
            }
            if lang != "en"@ {
                assert(table_in(self.tables@, "en"@) == table_in(before, "en"@));
            }
        }
    }
}

/// Replacing the first table of a language changes what is found for that
/// language only.
proof fn lemma_table_replace(before: Seq<LocaleTable>, after: Seq<LocaleTable>, i: int, lang: Seq<char>, msgs: JsonModel)
    requires
        0 <= i < before.len(),
        after == before.update(i, after[i]),
        after[i].language@ == lang,
        json_tree(after[i].messages) == msgs,
        before[i].language@ == lang,
        forall|j: int| 0 <= j < i ==> before[j].language@ != lang,
    ensures
        table_in(after, lang) == Some(msgs),
        forall|l: Seq<char>| l != lang ==> table_in(after, l) == table_in(before, l),
    decreases i,
{
    let a1 = after.subrange(1, after.len() as int);
    let b1 = before.subrange(1, before.len() as int);
    if i == 0 {
        assert(a1 =~= b1);
        assert forall|l: Seq<char>| l != lang implies table_in(after, l) == table_in(before, l) by {
            assert(after[0].language@ != l);
            assert(before[0].language@ != l);
        }
    } else {
        assert(after[0] == before[0]);
        assert(a1 =~= b1.update(i - 1, a1[i - 1]));
        lemma_table_replace(b1, a1, i - 1, lang, msgs);
        assert forall|l: Seq<char>| l != lang implies table_in(after, l) == table_in(before, l) by {
            if after[0].language@ != l {
                assert(table_in(a1, l) == table_in(b1, l));
            }
        }
    }
}

/// Appending a table for a language that has none makes it found, and
/// changes nothing else.
proof fn lemma_table_append(before: Seq<LocaleTable>, after: Seq<LocaleTable>, lang: Seq<char>, msgs: JsonModel)
    requires
        after.len() == before.len() + 1,
        forall|j: int| 0 <= j < before.len() ==> after[j] == before[j],
        after[before.len() as int].language@ == lang,
        json_tree(after[before.len() as int].messages) == msgs,
        forall|j: int| 0 <= j < before.len() ==> before[j].language@ != lang,
    ensures
        table_in(after, lang) == Some(msgs),
        forall|l: Seq<char>| l != lang ==> table_in(after, l) == table_in(before, l),
    decreases before.len(),
{
    let a1 = after.subrange(1, after.len() as int);
    if before.len() == 0 {
        assert(a1 =~= Seq::<LocaleTable>::empty());
        assert forall|l: Seq<char>| l != lang implies table_in(after, l) == table_in(before, l) by {
            assert(after[0].language@ != l);
            assert(table_in(a1, l) is None);
        }
    } else {
        let b1 = before.subrange(1, before.len() as int);
        assert(after[0] == before[0]);
        lemma_table_append(b1, a1, lang, msgs);
        assert forall|l: Seq<char>| l != lang implies table_in(after, l) == table_in(before, l) by {
            if after[0].language@ != l {
                assert(table_in(a1, l) == table_in(b1, l));
            }
        }
    }
}


/// Skipping tables of other languages does not change what is found.
proof fn lemma_table_skip(s: Seq<LocaleTable>, l: Seq<char>, i: int)
    requires
        0 <= i <= s.len(),
        forall|j: int| 0 <= j < i ==> s[j].language@ != l,
    ensures
        table_in(s, l) == table_in(s.subrange(i, s.len() as int), l),
    decreases i,
{
    if i > 0 {
        let s1 = s.subrange(1, s.len() as int);
        lemma_table_skip(s1, l, i - 1);
        assert(s1.subrange(i - 1, s1.len() as int) =~= s.subrange(i, s.len() as int));
    } else {
        assert(s.subrange(0, s.len() as int) =~= s);
    }
}

/// The position of the first table of `language`.
fn find_table(tables: &Vec<LocaleTable>, language: &str) -> (r: Option<usize>)
    ensures
        match r {
            Some(i) => i < tables@.len() && table_in(tables@, language@) == Some(json_tree(tables@[i as int].messages)),
            None => table_in(tables@, language@) is None,
        },
{
    let n = tables.len();
    let mut i: usize = 0;
    while i < n
        invariant
            n == tables@.len(),
            i <= n,
            forall|j: int| 0 <= j < i ==> tables@[j].language@ != language@,
        decreases n - i,
    {
        if text_eq(tables[i].language.as_str(), language) {
            proof {
                lemma_table_skip(tables@, language@, i as int);
                assert(tables@.subrange(i as int, n as int)[0] == tables@[i as int]);
            }
            return Some(i);
        }
        i = i + 1;
    }
    proof {
        lemma_table_skip(tables@, language@, n as int);
        assert(tables@.subrange(n as int, n as int).len() == 0);
    }
    None
}

/// The messages used for `language`: its own table, or English when it has
/// none.
pub open spec fn messages_for(locales: Locales, language: Seq<char>) -> JsonModel {
    match locales.table_for(language) {
        Some(m) => m,
        None => locales.table_for("en"@).unwrap(),
    }
}

/// The text that the messages hold under `section` and `key`, if it is a
/// string.
pub open spec fn message_in(messages: JsonModel, section: Seq<char>, key: Seq<char>) -> Option<Seq<char>> {
    json_text(json_member(json_member(messages, section), key))
}

/// The localised text of `section`/`key` in `language`: the message's text,
/// or the key itself when there is no such text.
pub open spec fn message_text(locales: Locales, language: Seq<char>, section: Seq<char>, key: Seq<char>) -> Seq<char> {
    match message_in(messages_for(locales, language), section, key) {
        Some(t) => t,
        None => key,
    }
}

/// The localised text of `section`/`key` in `language`.
pub fn get_message(locales: &Locales, language: &str, section: &str, key: &str) -> (r: String)
    requires
        locales.is_valid(),
    ensures
        r@ == message_text(*locales, language@, section@, key@),
{
    let t = match find_table(&locales.tables, language) {
        Some(i) => i,
        None => {
            proof {
                reveal_strlit("en");
            }
            match find_table(&locales.tables, "en") {
                Some(j) => j,
                None => 0,
            }
        },
    };
    let doc = &locales.tables[t].messages;
    let in_section = json_index(doc, section);
    let entry = json_index(in_section, key);
    match json_as_str(entry) {
        Some(text) => text,
        None => String::from_str(key),
    }
}

/// The messages parsed from a JSON text, or an empty (`Null`) document when
/// it does not parse.
pub open spec fn parsed_or_null(text: Seq<char>) -> JsonModel {
    match json_parse(text) {
        Some(doc) => doc,
        None => JsonModel::Null,
    }
}

fn parse_or_default(text: &str) -> (r: Value)
    ensures
        json_tree(r) == parsed_or_null(text@),
{
    match json_from_str(text) {
        Some(v) => v,
        None => json_default(),
    }
}

/// The tool's message tables: English and Korean, each parsed from its JSON
/// text; a text that does not parse gives a table without messages.
pub fn load_locales(english_json: &str, korean_json: &str) -> (r: Locales)
    ensures
        r.is_valid(),
        r.table_for("en"@) == Some(parsed_or_null(english_json@)),
        r.table_for("ko"@) == Some(parsed_or_null(korean_json@)),
        forall|l: Seq<char>| l != "en"@ && l != "ko"@ ==> r.table_for(l) is None,
{
    proof {
        reveal_strlit("en");
        reveal_strlit("ko");
        assert("ko"@[0] != "en"@[0]);
    }
    let mut r = Locales::new(parse_or_default(english_json));
    r.insert(String::from_str("ko"), parse_or_default(korean_json));
    r
}

/// A language without a table of its own reads the English messages.
pub proof fn law_unknown_language_reads_english(locales: Locales, language: Seq<char>, section: Seq<char>, key: Seq<char>)
    requires
        locales.is_valid(),
        locales.table_for(language) is None,
    ensures
        message_text(locales, language, section, key) == message_text(locales, "en"@, section, key),
{
    assert(locales.table_for("en"@) is Some);
}

/// After a language's messages are set, reading that language finds exactly
/// them: a text present there is returned, a missing one yields its key.
pub proof fn law_insert_then_read(after: Locales, language: Seq<char>, msgs: JsonModel, section: Seq<char>, key: Seq<char>)
    requires
        after.table_for(language) == Some(msgs),
    ensures
        message_text(after, language, section, key) == match message_in(msgs, section, key) {
            Some(t) => t,
            None => key,
        },
{
}

} // verus!
