//! The state behind the window and what it decides on each action of the
//! user: which records are listed, when a draft becomes a record, which
//! records a batch of deletions removes, which text goes to the clipboard,
//! and when the store is due to be written to its file. The window draws the
//! state, hands each click to `handle` and carries out what it answers.

use crate::codec::loaded;
use crate::database::{
    ascending, deleted_descending, position_set, without_positions, PasswordDatabase,
};
use crate::entry::{triples, EntryView};
use crate::json::parsed_json;
use crate::search::{listed, matches_search};
use vstd::prelude::*;

verus! {

/// The store with the path of its file, the three drafts of the record that
/// is being typed and the search query.
#[derive(Debug, Clone, PartialEq, Eq)]
pub struct PasswordManagerApp {
    pub db: PasswordDatabase,
    pub db_path: String,
    pub new_site: String,
    pub new_username: String,
    pub new_password: String,
    pub search_query: String,
}

/// The state as contracts speak of it.
pub struct AppView {
    pub db: Seq<EntryView>,
    pub db_path: Seq<char>,
    pub new_site: Seq<char>,
    pub new_username: Seq<char>,
    pub new_password: Seq<char>,
    pub search_query: Seq<char>,
}

impl View for PasswordManagerApp {
    type V = AppView;

    open spec fn view(&self) -> AppView {
        AppView {
            db: self.db@,
            db_path: self.db_path@,
            new_site: self.new_site@,
            new_username: self.new_username@,
            new_password: self.new_password@,
            search_query: self.search_query@,
        }
    }
}

/// What the user did in the window.
#[derive(Debug, Clone, PartialEq, Eq)]
pub enum ShellEvent {
    /// The add button.
    AddClicked,
    /// The show or hide button of the record at a position.
    ToggleClicked(usize),
    /// The copy button of the record at a position.
    CopyClicked(usize),
    /// The delete buttons of one pass over the list: the positions of their
    /// records, as they stood before any deletion.
    DeleteClicked(Vec<usize>),
}

/// What the window has to do after an event.
#[derive(Debug, Clone, PartialEq, Eq)]
pub enum ShellAction {
    /// Nothing.
    Nothing,
    /// Write the store to its file.
    Save,
    /// Put the text on the clipboard.
    Copy(String),
}

/// An action as contracts speak of it.
pub enum ActionView {
    Nothing,
    Save,
    Copy(Seq<char>),
}

impl View for ShellAction {
    type V = ActionView;

    open spec fn view(&self) -> ActionView {
        match self {
            ShellAction::Nothing => ActionView::Nothing,
            ShellAction::Save => ActionView::Save,
            ShellAction::Copy(text) => ActionView::Copy(text@),
        }
    }
}

impl AppView {
    /// The record that the drafts stand for, its password masked.
    pub open spec fn drafted(self) -> EntryView {
        EntryView {
            site: self.new_site,
            username: self.new_username,
            password: self.new_password,
            is_password_visible: false,
        }
    }

    /// The state after the add button: with a site typed, the drafted record
    /// is appended and the drafts are cleared; without one nothing changes.
    pub open spec fn submitted(self) -> AppView {
        if self.new_site.len() > 0 {
            AppView {
                db: self.db.push(self.drafted()),
                new_site: Seq::empty(),
                new_username: Seq::empty(),
                new_password: Seq::empty(),
                ..self
            }
        } else {
            self
        }
    }

    /// The state after the show or hide button of the record at `index`.
    pub open spec fn toggled_at(self, index: int) -> AppView {
        if 0 <= index < self.db.len() {
            AppView { db: self.db.update(index, self.db[index].toggled()), ..self }
        } else {
            self
        }
    }

    /// The state after an event.
    pub open spec fn after(self, event: ShellEvent) -> AppView {
        match event {
            ShellEvent::AddClicked => self.submitted(),
            ShellEvent::ToggleClicked(index) => self.toggled_at(index as int),
            ShellEvent::CopyClicked(_) => self,
            ShellEvent::DeleteClicked(marked) => AppView {
                db: deleted_descending(self.db, marked@),
                ..self
            },
        }
    }

    /// What the window has to do after an event: save after an added record
    /// and after a pass with deletions, copy the password of the record whose
    /// copy button it was.
    pub open spec fn action_for(self, event: ShellEvent) -> ActionView {
        match event {
            ShellEvent::AddClicked => if self.new_site.len() > 0 {
                ActionView::Save
            } else {
                ActionView::Nothing
            },
            ShellEvent::ToggleClicked(_) => ActionView::Nothing,
            ShellEvent::CopyClicked(index) => if index < self.db.len() {
                ActionView::Copy(self.db[index as int].password)
            } else {
                ActionView::Nothing
            },
            ShellEvent::DeleteClicked(marked) => if marked@.len() > 0 {
                ActionView::Save
            } else {
                ActionView::Nothing
            },
        }
    }
}

/// No change of the records goes unsaved: whenever an event leaves the store
/// with other sites, user names or passwords than before, the window is told
/// to save. After every other event the records are as they were, but for
/// their display flags.
pub proof fn lemma_changes_are_saved(state: AppView, event: ShellEvent)
    ensures
        triples(state.after(event).db) != triples(state.db) ==> state.action_for(event)
            == ActionView::Save,
        state.after(event).db_path == state.db_path,
        state.after(event).search_query == state.search_query,
{
    match event {
        ShellEvent::ToggleClicked(index) => {
            assert(triples(state.toggled_at(index as int).db) =~= triples(state.db));
        },
        _ => {},
    }
}

/// The positions below `upto` whose record is listed under the query, in
/// ascending order.
pub open spec fn listed_positions(entries: Seq<EntryView>, query: Seq<char>, upto: int) -> Seq<
    usize,
>
    decreases upto,
{
    if upto <= 0 {
        Seq::empty()
    } else if listed(entries[upto - 1], query) {
        listed_positions(entries, query, upto - 1).push((upto - 1) as usize)
    } else {
        listed_positions(entries, query, upto - 1)
    }
}

/// The listed positions are exactly the positions below `upto` whose record
/// is listed under the query, each once and in ascending order: a batch of
/// deletions may take them as they are.
pub proof fn lemma_listed_positions(entries: Seq<EntryView>, query: Seq<char>, upto: int)
    requires
        0 <= upto <= entries.len() <= usize::MAX,
    ensures
        ascending(listed_positions(entries, query, upto)),
        forall|k: int|
            0 <= k < listed_positions(entries, query, upto).len() ==> {
                let p = #[trigger] listed_positions(entries, query, upto)[k];
                p < upto && listed(entries[p as int], query)
            },
        forall|p: int|
            0 <= p < upto && listed(entries[p], query) ==> #[trigger] position_set(
                listed_positions(entries, query, upto),
            ).contains(p),
    decreases upto,
{
    if upto > 0 {
        lemma_listed_positions(entries, query, upto - 1);
        let shorter = listed_positions(entries, query, upto - 1);
        let longer = listed_positions(entries, query, upto);
        assert forall|p: int| 0 <= p < upto && listed(entries[p], query) implies #[trigger] position_set(
            longer,
        ).contains(p) by {
            if p < upto - 1 {
                assert(position_set(shorter).contains(p));
                let k = choose|k: int| 0 <= k < shorter.len() && #[trigger] shorter[k] == p;
                assert(longer[k] == p);
            } else {
                assert(longer[longer.len() - 1] == p);
            }
        }
    }
}

impl PasswordManagerApp {
    /// The state at start: the store loaded from what reading the file at
    /// `db_path` gave, no draft and no query.
    pub fn new(db_path: String, content: Option<&str>) -> (app: PasswordManagerApp)
        ensures
            app@ == (AppView {
                db: match content {
                    Some(text) => loaded(parsed_json(text@)),
                    None => Seq::empty(),
                },
                db_path: db_path@,
                new_site: Seq::empty(),
                new_username: Seq::empty(),
                new_password: Seq::empty(),
                search_query: Seq::empty(),
            }),
    {
        PasswordManagerApp {
            db: PasswordDatabase::load_from_read(content),
            db_path,
            new_site: String::new(),
            new_username: String::new(),
            new_password: String::new(),
            search_query: String::new(),
        }
    }

    /// The add button: a draft with a site becomes the last record of the
    /// store and the drafts are cleared. Returns whether the store changed
    /// and is due to be written.
    pub fn submit_entry(&mut self) -> (changed: bool)
        ensures
            final(self)@ == old(self)@.submitted(),
            changed == (old(self)@.new_site.len() > 0),
    {
        if self.new_site.as_str().is_empty() {
            return false;
        }
        self.db.add_entry(self.new_site.clone(), self.new_username.clone(), self.new_password.clone());
        self.new_site = String::new();
        self.new_username = String::new();
        self.new_password = String::new();
        true
    }

    /// The positions of the records that the list shows under the search
    /// query, in ascending order.
    pub fn listed_indices(&self) -> (shown: Vec<usize>)
        ensures
            shown@ == listed_positions(self@.db, self@.search_query, self@.db.len() as int),
            ascending(shown@),
            forall|k: int|
                0 <= k < shown@.len() ==> {
                    let p = #[trigger] shown@[k];
                    p < self@.db.len() && listed(self@.db[p as int], self@.search_query)
                },
            forall|p: int|
                0 <= p < self@.db.len() && listed(self@.db[p], self@.search_query)
                    ==> #[trigger] position_set(shown@).contains(p),
    {
        let mut shown: Vec<usize> = Vec::new();
        let mut i: usize = 0;
        while i < self.db.entries.len()
            invariant
                i <= self.db.entries.len(),
                shown@ == listed_positions(self@.db, self@.search_query, i as int),
            decreases self.db.entries.len() - i,
        {
            if matches_search(&self.db.entries[i], self.search_query.as_str()) {
                shown.push(i);
            }
            i += 1;
        }
        proof {
            lemma_listed_positions(self@.db, self@.search_query, self@.db.len() as int);
        }
        shown
    }

    /// The password of the record at `index`, for the clipboard; `None` where
    /// there is no such position.
    pub fn password_to_copy(&self, index: usize) -> (text: Option<String>)
        ensures
            match text {
                Some(password) => index < self@.db.len() && password@ == self@.db[index as int].password,
                None => index >= self@.db.len(),
            },
    {
        if index < self.db.entries.len() {
            Some(self.db.entries[index].password.clone())
        } else {
            None
        }
    }

    /// The delete buttons of one pass over the list: deletes at each of the
    /// marked positions, from the last to the first. Returns whether anything
    /// was marked, and the store is therefore due to be written.
    pub fn delete_marked(&mut self, marked: &Vec<usize>) -> (changed: bool)
        ensures
            final(self)@ == (AppView {
                db: deleted_descending(old(self)@.db, marked@),
                ..old(self)@
            }),
            ascending(marked@) ==> final(self)@.db == without_positions(
                old(self)@.db,
                position_set(marked@),
            ),
            changed == (marked@.len() > 0),
    {
        self.db.delete_entries(marked);
        marked.len() > 0
    }

    /// Takes one event: brings the state to what follows it and says what
    /// the window has to do.
    pub fn handle(&mut self, event: ShellEvent) -> (action: ShellAction)
        ensures
            final(self)@ == old(self)@.after(event),
            action@ == old(self)@.action_for(event),
    {
        match event {
            ShellEvent::AddClicked => {
                if self.submit_entry() {
                    ShellAction::Save
                } else {
                    ShellAction::Nothing
                }
            },
            ShellEvent::ToggleClicked(index) => {
                self.db.toggle_visibility(index);
                ShellAction::Nothing
            },
            ShellEvent::CopyClicked(index) => {
                match self.password_to_copy(index) {
                    Some(password) => ShellAction::Copy(password),
                    None => ShellAction::Nothing,
                }
            },
            ShellEvent::DeleteClicked(marked) => {
                if self.delete_marked(&marked) {
                    ShellAction::Save
                } else {
                    ShellAction::Nothing
                }
            },
        }
    }
}

} // verus!
