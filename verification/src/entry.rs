//! One credential record and its mathematical view.

use vstd::prelude::*;

verus! {

/// One stored login: the site it belongs to, the user name and the password,
/// with the display flag that says whether the password is shown in clear.
#[derive(Debug, Clone, PartialEq, Eq)]
pub struct PasswordEntry {
    pub site: String,
    pub username: String,
    pub password: String,
    pub is_password_visible: bool,
}

/// A record as contracts speak of it: its three texts and its display flag.
pub struct EntryView {
    pub site: Seq<char>,
    pub username: Seq<char>,
    pub password: Seq<char>,
    pub is_password_visible: bool,
}

impl EntryView {
    /// The record with its password masked.
    pub open spec fn hidden(self) -> EntryView {
        EntryView { is_password_visible: false, ..self }
    }

    /// The record with its display flag turned over.
    pub open spec fn toggled(self) -> EntryView {
        EntryView { is_password_visible: !self.is_password_visible, ..self }
    }

    /// The site, user name and password of the record.
    pub open spec fn triple(self) -> (Seq<char>, Seq<char>, Seq<char>) {
        (self.site, self.username, self.password)
    }
}

impl View for PasswordEntry {
    type V = EntryView;

    open spec fn view(&self) -> EntryView {
        EntryView {
            site: self.site@,
            username: self.username@,
            password: self.password@,
            is_password_visible: self.is_password_visible,
        }
    }
}

impl PasswordEntry {
    /// A record with the given texts, its password masked.
    pub fn new(site: String, username: String, password: String) -> (entry: PasswordEntry)
        ensures
            entry@ == (EntryView {
                site: site@,
                username: username@,
                password: password@,
                is_password_visible: false,
            }),
    {
        PasswordEntry { site, username, password, is_password_visible: false }
    }

    /// The text that the list shows for the password: the password itself
    /// where it is visible, else eight bullets.
    pub fn displayed_password(&self) -> (shown: &str)
        ensures
            shown@ == (if self.is_password_visible {
                self.password@
            } else {
                "••••••••"@
            }),
    {
        if self.is_password_visible {
            self.password.as_str()
        } else {
            "••••••••"
        }
    }

    /// The label of the button that turns the display flag over.
    pub fn visibility_label(&self) -> (label: &'static str)
        ensures
            label@ == (if self.is_password_visible {
                "Hide"@
            } else {
                "Show"@
            }),
    {
        if self.is_password_visible {
            "Hide"
        } else {
            "Show"
        }
    }
}

/// The views of a sequence of records, in order.
pub open spec fn entry_views(entries: Seq<PasswordEntry>) -> Seq<EntryView> {
    Seq::new(entries.len(), |i: int| entries[i]@)
}

/// Every record of the sequence with its password masked.
pub open spec fn all_hidden(entries: Seq<EntryView>) -> Seq<EntryView> {
    Seq::new(entries.len(), |i: int| entries[i].hidden())
}

/// The site, user name and password of every record, in order.
pub open spec fn triples(entries: Seq<EntryView>) -> Seq<(Seq<char>, Seq<char>, Seq<char>)> {
    Seq::new(entries.len(), |i: int| entries[i].triple())
}

} // verus!
