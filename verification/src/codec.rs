//! The document form of the store: which JSON tree a store is written as, and
//! which store a JSON tree is read as.

use crate::database::PasswordDatabase;
use crate::entry::{all_hidden, triples, EntryView, PasswordEntry};
use crate::json::{
    array_value, bool_value, fields_tree, json_tree, json_trees, object_value, parse_value,
    parsed_json, pretty_json, pretty_text, text_value, value_elements, value_member, value_text,
    JsonTree,
};
use vstd::prelude::*;

verus! {

/// Why a store could not be written as text.
#[derive(Debug, Clone, Copy, PartialEq, Eq)]
pub enum SaveError {
    /// The serializer reported a failure.
    Serialize,
}

/// The text under `key`, where the tree is an object that holds a string
/// there.
pub open spec fn text_member(tree: JsonTree, key: Seq<char>) -> Option<Seq<char>> {
    match tree.member(key) {
        Some(JsonTree::Text(text)) => Some(text),
        _ => None,
    }
}

/// The record that a tree is read as: an object with a string under each of
/// `site`, `username` and `password`. Whatever else the object holds is passed
/// over, a display flag too: a record that is read has its password masked.
pub open spec fn decoded_entry(tree: JsonTree) -> Option<EntryView> {
    match (text_member(tree, "site"@), text_member(tree, "username"@), text_member(
        tree,
        "password"@,
    )) {
        (Some(site), Some(username), Some(password)) => Some(
            EntryView { site, username, password, is_password_visible: false },
        ),
        _ => None,
    }
}

/// The records that a sequence of trees is read as: those of its elements,
/// in order, where every element is a record.
pub open spec fn decoded_list(items: Seq<JsonTree>) -> Option<Seq<EntryView>> {
    if forall|i: int| 0 <= i < items.len() ==> (#[trigger] decoded_entry(items[i])) is Some {
        Some(Seq::new(items.len(), |i: int| decoded_entry(items[i])->0))
    } else {
        None
    }
}

/// The records that a document is read as: an object with an array of records
/// under `entries`.
pub open spec fn decoded_entries(tree: JsonTree) -> Option<Seq<EntryView>> {
    match tree.member("entries"@) {
        Some(JsonTree::Array(items)) => decoded_list(items),
        _ => None,
    }
}

/// The tree that a record is written as: an object with its three texts and
/// its display flag.
pub open spec fn entry_tree(entry: EntryView) -> JsonTree {
    JsonTree::Object(
        Map::empty().insert("site"@, JsonTree::Text(entry.site)).insert(
            "username"@,
            JsonTree::Text(entry.username),
        ).insert("password"@, JsonTree::Text(entry.password)).insert(
            "is_password_visible"@,
            JsonTree::Bool(entry.is_password_visible),
        ),
    )
}

/// The trees of a sequence of records, in order.
pub open spec fn entry_trees(entries: Seq<EntryView>) -> Seq<JsonTree> {
    Seq::new(entries.len(), |i: int| entry_tree(entries[i]))
}

/// The document that a store is written as: an object with the array of its
/// records under `entries`.
pub open spec fn entries_tree(entries: Seq<EntryView>) -> JsonTree {
    JsonTree::Object(Map::empty().insert("entries"@, JsonTree::Array(entry_trees(entries))))
}

/// The store that is loaded from what the parser made of a text: the records
/// of the document, or none where the text is no JSON or the document is no
/// store.
pub open spec fn loaded(parsed: Option<JsonTree>) -> Seq<EntryView> {
    match parsed {
        Some(tree) => match decoded_entries(tree) {
            Some(entries) => entries,
            None => Seq::empty(),
        },
        None => Seq::empty(),
    }
}

/// The four keys of a record differ from each other.
proof fn lemma_entry_keys_differ()
    ensures
        "site"@ != "username"@,
        "site"@ != "password"@,
        "site"@ != "is_password_visible"@,
        "username"@ != "password"@,
        "username"@ != "is_password_visible"@,
        "password"@ != "is_password_visible"@,
{
    reveal_strlit("site");
    reveal_strlit("username");
    reveal_strlit("password");
    reveal_strlit("is_password_visible");
    assert("site"@.len() == 4);
    assert("username"@.len() == 8);
    assert("password"@.len() == 8);
    assert("is_password_visible"@.len() == 19);
    assert("username"@[0] == 'u');
    assert("password"@[0] == 'p');
}

/// A record that is written and read again comes back with its password
/// masked and nothing else changed.
pub proof fn lemma_entry_round_trip(entry: EntryView)
    ensures
        decoded_entry(entry_tree(entry)) == Some(entry.hidden()),
{
    lemma_entry_keys_differ();
}

/// Reading the document that a store is written as gives the records of the
/// store, in order, each with its password masked: the same sites, user names
/// and passwords, whatever the display flags were.
pub proof fn lemma_round_trip(entries: Seq<EntryView>)
    ensures
        decoded_entries(entries_tree(entries)) == Some(all_hidden(entries)),
        loaded(Some(entries_tree(entries))) == all_hidden(entries),
        triples(loaded(Some(entries_tree(entries)))) == triples(entries),
{
    let items = entry_trees(entries);
    assert forall|i: int| 0 <= i < items.len() implies (#[trigger] decoded_entry(items[i]))
        == Some(entries[i].hidden()) by {
        lemma_entry_round_trip(entries[i]);
    }
    assert(decoded_list(items)->0 =~= all_hidden(entries));
    assert(triples(all_hidden(entries)) =~= triples(entries));
}

/// Every record of a loaded store has its password masked, whatever the text
/// said of it.
pub proof fn lemma_loaded_hidden(parsed: Option<JsonTree>, i: int)
    requires
        0 <= i < loaded(parsed).len(),
    ensures
        !loaded(parsed)[i].is_password_visible,
{
}

/// A text that is no JSON, and a document that is no store, load as the store
/// without records.
pub proof fn lemma_unreadable_loads_empty(parsed: Option<JsonTree>)
    requires
        parsed matches Some(tree) ==> decoded_entries(tree) is None,
    ensures
        loaded(parsed) == Seq::<EntryView>::empty(),
{
}

/// The text under `key`, where the value is an object that holds a string
/// there.
fn member_text<'a>(value: &'a serde_json::Value, key: &str) -> (r: Option<&'a str>)
    ensures
        match r {
            Some(text) => text_member(json_tree(*value), key@) == Some(text@),
            None => text_member(json_tree(*value), key@) is None,
        },
{
    match value_member(value, key) {
        Some(found) => value_text(found),
        None => None,
    }
}

/// Reads one record from a JSON value.
pub fn decode_entry(value: &serde_json::Value) -> (r: Option<PasswordEntry>)
    ensures
        match r {
            Some(entry) => decoded_entry(json_tree(*value)) == Some(entry@),
            None => decoded_entry(json_tree(*value)) is None,
        },
{
    let site = match member_text(value, "site") {
        Some(text) => text,
        None => { return None; },
    };
    let username = match member_text(value, "username") {
        Some(text) => text,
        None => { return None; },
    };
    let password = match member_text(value, "password") {
        Some(text) => text,
        None => { return None; },
    };
    Some(PasswordEntry::new(site.to_owned(), username.to_owned(), password.to_owned()))
}

/// Writes one record as a JSON value.
pub fn encode_entry(entry: &PasswordEntry) -> (value: serde_json::Value)
    ensures
        json_tree(value) == entry_tree(entry@),
{
    let mut fields: Vec<(String, serde_json::Value)> = Vec::new();
    fields.push(("site".to_owned(), text_value(entry.site.clone())));
    fields.push(("username".to_owned(), text_value(entry.username.clone())));
    fields.push(("password".to_owned(), text_value(entry.password.clone())));
    fields.push(("is_password_visible".to_owned(), bool_value(entry.is_password_visible)));
    proof {
        lemma_entry_keys_differ();
        reveal_with_fuel(fields_tree, 5);
    }
    object_value(fields)
}

impl PasswordDatabase {
    /// Reads a store from a JSON value: `None` where the value is no store.
    /// Every record that is read has its password masked.
    pub fn from_json_value(value: &serde_json::Value) -> (r: Option<PasswordDatabase>)
        ensures
            match r {
                Some(db) => decoded_entries(json_tree(*value)) == Some(db@),
                None => decoded_entries(json_tree(*value)) is None,
            },
    {
        let items = match value_member(value, "entries") {
            Some(list) => match value_elements(list) {
                Some(items) => items,
                None => { return None; },
            },
            None => { return None; },
        };
        let ghost trees = json_trees(items@);
        let mut entries: Vec<PasswordEntry> = Vec::new();
        let mut i: usize = 0;
        while i < items.len()
            invariant
                i <= items.len(),
                trees == json_trees(items@),
                json_tree(*value).member("entries"@) == Some(JsonTree::Array(trees)),
                entries.len() == i,
                forall|j: int|
                    0 <= j < i ==> (#[trigger] decoded_entry(trees[j])) == Some(entries@[j]@),
            decreases items.len() - i,
        {
            match decode_entry(&items[i]) {
                Some(entry) => { entries.push(entry); },
                None => {
                    assert(decoded_entry(trees[i as int]) is None);
                    return None;
                },
            }
            i += 1;
        }
        let db = PasswordDatabase { entries };
        assert(decoded_list(trees)->0 =~= db@);
        Some(db)
    }

    /// Writes the store as a JSON value.
    pub fn to_json_value(&self) -> (value: serde_json::Value)
        ensures
            json_tree(value) == entries_tree(self@),
    {
        let mut items: Vec<serde_json::Value> = Vec::new();
        let mut i: usize = 0;
        while i < self.entries.len()
            invariant
                i <= self.entries.len(),
                items.len() == i,
                forall|j: int| 0 <= j < i ==> json_tree(#[trigger] items@[j]) == entry_tree(self@[j]),
            decreases self.entries.len() - i,
        {
            items.push(encode_entry(&self.entries[i]));
            i += 1;
        }
        assert(json_trees(items@) =~= entry_trees(self@));
        let mut fields: Vec<(String, serde_json::Value)> = Vec::new();
        fields.push(("entries".to_owned(), array_value(items)));
        proof {
            reveal_with_fuel(fields_tree, 2);
        }
        object_value(fields)
    }

    /// The store for what the parser made of a text: the records of the
    /// document, each with its password masked, or no records where the text
    /// was no JSON or the document is no store. The failure is not passed on.
    pub fn from_parsed(parsed: Result<serde_json::Value, serde_json::Error>) -> (db:
        PasswordDatabase)
        ensures
            db@ == loaded(
                match parsed {
                    Ok(value) => Some(json_tree(value)),
                    Err(_) => None,
                },
            ),
    {
        match parsed {
            Ok(value) => match PasswordDatabase::from_json_value(&value) {
                Some(db) => db,
                None => PasswordDatabase::default(),
            },
            Err(_) => PasswordDatabase::default(),
        }
    }

    /// Loads a store from the text of a file. This never fails: a text that
    /// cannot be read as a store gives the store without records.
    pub fn load_from_text(text: &str) -> (db: PasswordDatabase)
        ensures
            db@ == loaded(parsed_json(text@)),
            forall|i: int| 0 <= i < db@.len() ==> !(#[trigger] db@[i]).is_password_visible,
    {
        PasswordDatabase::from_parsed(parse_value(text))
    }

    /// Loads a store from what reading the file gave: its text, or `None`
    /// where it could not be read. A file that is not there counts as a
    /// document without records.
    pub fn load_from_read(content: Option<&str>) -> (db: PasswordDatabase)
        ensures
            db@ == (match content {
                Some(text) => loaded(parsed_json(text@)),
                None => Seq::empty(),
            }),
            forall|i: int| 0 <= i < db@.len() ==> !(#[trigger] db@[i]).is_password_visible,
    {
        match content {
            Some(text) => PasswordDatabase::load_from_text(text),
            None => PasswordDatabase::default(),
        }
    }

    /// The outcome of a save for what the serializer returned: its text, or
    /// the error of this library in place of its own.
    pub fn save_outcome(printed: Result<String, serde_json::Error>) -> (r: Result<
        String,
        SaveError,
    >)
        ensures
            r == (match printed {
                Ok(text) => Ok::<String, SaveError>(text),
                Err(_) => Err(SaveError::Serialize),
            }),
    {
        match printed {
            Ok(text) => Ok(text),
            Err(_) => Err(SaveError::Serialize),
        }
    }

    /// The whole store as indented JSON text, for a file that is written
    /// anew on every save.
    pub fn save_to_text(&self) -> (r: Result<String, SaveError>)
        ensures
            match r {
                Ok(text) => pretty_json(entries_tree(self@)) == Some(text@),
                Err(e) => e == SaveError::Serialize && pretty_json(entries_tree(self@)) is None,
            },
    {
        let value = self.to_json_value();
        PasswordDatabase::save_outcome(pretty_text(&value))
    }
}

} // verus!
