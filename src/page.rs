//! The page controller's decisions: what a page loads, what it starts
//! with, whether it autosaves, and what its delete button removes.

use vstd::prelude::*;
use crate::autosave::Autosave;
use crate::route::{Mode, Page, HELP_KEY};
use crate::storage::{StoreOp, StoreOpM};

verus! {

/// The colour scheme of the app.
#[derive(Debug, Clone, Copy, PartialEq, Eq, Structural)]
pub enum Theme {
    Light,
    Dark,
}

impl Default for Theme {
    fn default() -> (r: Theme)
        ensures
            r == Theme::Light,
    {
        Theme::Light
    }
}

/// The name of the transactional database and of its one collection.
pub const STORE_NAME: &'static str = "wiki";

/// The built-in help document, also the home document of a new store.
pub const HELP: &'static str = "= Help
== important note
Everything you 'edit' in this app stays in your browser(into IndexedDB).

Using any other device, browser, domain, even protocol or clearing your browser cache will erase every note of yourself.

Browsers may limit or ask you for storage expansion when total saved notes are becoming larger than its maximum.
----
== text styles
//italic// and **bold**.
----
== bullet list
* a
** aa
*** aaa
* b
----
== numbered list
# 1
## 11
### 111
# 2
## 21
## 22
----
== mixed list
* a
*# a1
*# a2
*## a21
#### 1111
#### 1112
### 112
##* 11a
##* 11b
##*# 11b1
##*# 11b2
* a
----
== external links
[[https://webassembly.org|WASM]]

[[http://www.wikicreole.org|WikiCreole]]

[[https://www.w3schools.com/]]

== script links
[[javascript:alert('hi')|alert me \"hi\"]]

== internal links
[[home]]

[[test]] : view wiki page named \"test\"

----
== headings
= h1
== h2
=== h3
==== h4
===== h5
====== h6
----
== linebreaks
No
linebreak!

Use empty row

Force\\\\linebreak
----
== Horizontal line
----
----
== image
{{http://www.wikicreole.org/imageServlet?page=CheatSheet%2Fcreole_cheat_sheet.png&width=340}}

{{/icons/icon-64.png|WCLEW Logo}}
----
== table
|=|=table|=header|
|a|{{{ // no wiki in table // }}}|row|
|b|table|row|
|c||empty cell|
== Don't format
{{{
== [[Nowiki]]:
//**don't** format//
}}}
";

/// The paths of the routes that show a document in a mode.
pub open spec fn nav_path_of(mode: Mode, id: Seq<char>) -> Seq<char> {
    match mode {
        Mode::View => "/w/"@ + id,
        Mode::Edit => "/e/"@ + id,
        Mode::ConfirmDelete => "/d/"@ + id,
        Mode::Help => "/help"@,
        Mode::NotFound => "/"@,
    }
}

/// The path that shows document `id` in `mode`.
pub fn nav_path(mode: Mode, id: &str) -> (r: String)
    ensures
        r@ == nav_path_of(mode, id@),
{
    match mode {
        Mode::View => "/w/".to_owned().concat(id),
        Mode::Edit => "/e/".to_owned().concat(id),
        Mode::ConfirmDelete => "/d/".to_owned().concat(id),
        Mode::Help => "/help".to_owned(),
        Mode::NotFound => "/".to_owned(),
    }
}

/// Whether a page shows the built-in help text: the help route, and any
/// page whose key is the reserved help key. That key is never read from or
/// written to the store by the user.
pub open spec fn shows_help(mode: Mode, id: Seq<char>) -> bool {
    mode == Mode::Help || (mode != Mode::NotFound && id == HELP_KEY@)
}

/// Whether a page in `mode` with key `id` reads its document from the store.
pub open spec fn loads_from_store(mode: Mode, id: Seq<char>) -> bool {
    (mode == Mode::View || mode == Mode::Edit || mode == Mode::ConfirmDelete) && !shows_help(mode, id)
}

/// What a page starts with, given what the store held under its key: the
/// help text where the page shows help, the stored text where there is one,
/// and the empty text otherwise.
pub open spec fn initial_content_of(mode: Mode, id: Seq<char>, stored: Option<Seq<char>>) -> Seq<char> {
    if shows_help(mode, id) {
        HELP@
    } else if loads_from_store(mode, id) && stored is Some {
        stored->0
    } else {
        Seq::empty()
    }
}

/// The entries a newly created store is seeded with: the help text as the
/// home document and under the reserved help key.
pub open spec fn seed_ops_of() -> Seq<StoreOpM> {
    seq![StoreOpM::Put(Seq::empty(), HELP@), StoreOpM::Put(HELP_KEY@, HELP@)]
}

/// The entries a new store is seeded with (see `seed_ops_of`).
pub fn seed_ops() -> (r: Vec<StoreOp>)
    ensures
        r@.map_values(|o: StoreOp| o@) == seed_ops_of(),
{
    let mut r: Vec<StoreOp> = Vec::new();
    r.push(StoreOp::Put { key: String::new(), value: HELP.to_owned() });
    r.push(StoreOp::Put { key: HELP_KEY.to_owned(), value: HELP.to_owned() });
    proof {
        assert(r@.map_values(|o: StoreOp| o@) =~= seed_ops_of());
    }
    r
}

/// Whether `id` is the reserved help key.
pub fn is_help_key(id: &String) -> (r: bool)
    ensures
        r == (id@ == HELP_KEY@),
{
    let help = HELP_KEY.to_owned();
    *id == help
}

impl Page {
    /// Whether this page shows the built-in help text.
    pub fn shows_help(&self) -> (r: bool)
        ensures
            r == shows_help(self.mode, self.doc_id@),
    {
        self.mode == Mode::Help || (self.mode != Mode::NotFound && is_help_key(&self.doc_id))
    }

    /// The key to read from the store before showing this page, if any.
    pub fn load_key(&self) -> (r: Option<String>)
        ensures
            match r {
                Some(k) => loads_from_store(self.mode, self.doc_id@) && k@ == self.doc_id@,
                None => !loads_from_store(self.mode, self.doc_id@),
            },
    {
        if self.shows_help() {
            return None;
        }
        match self.mode {
            Mode::View | Mode::Edit | Mode::ConfirmDelete => Some(self.doc_id.clone()),
            _ => None,
        }
    }

    /// The text this page starts with, given what its key loaded.
    pub fn initial_content(&self, stored: Option<String>) -> (r: String)
        ensures
            r@ == initial_content_of(
                self.mode,
                self.doc_id@,
                match stored {
                    Some(s) => Some(s@),
                    None => None,
                },
            ),
    {
        if self.shows_help() {
            return HELP.to_owned();
        }
        match self.mode {
            Mode::NotFound => String::new(),
            _ => match stored {
                Some(s) => s,
                None => String::new(),
            },
        }
    }

    /// Whether this page shows an editor.
    pub fn is_editable(&self) -> (r: bool)
        ensures
            r == (self.mode == Mode::Edit || self.mode == Mode::Help),
    {
        self.mode == Mode::Edit || self.mode == Mode::Help
    }

    /// The autosave synchronizer of this page: one for an edited document,
    /// none elsewhere (the help text is never saved).
    pub fn autosave(&self) -> (r: Option<Autosave>)
        ensures
            match r {
                Some(a) => self.mode == Mode::Edit && !shows_help(self.mode, self.doc_id@) && a
                    == Autosave::new_spec(self.doc_id),
                None => self.mode != Mode::Edit || shows_help(self.mode, self.doc_id@),
            },
    {
        if self.mode == Mode::Edit && !self.shows_help() {
            Some(Autosave::new(self.doc_id.clone()))
        } else {
            None
        }
    }

    /// What confirming the delete question removes: nothing on the help text.
    pub fn delete_op(&self) -> (r: Option<StoreOp>)
        ensures
            match r {
                Some(op) => self.mode == Mode::ConfirmDelete && !shows_help(self.mode, self.doc_id@)
                    && op@ == StoreOpM::Delete(self.doc_id@),
                None => self.mode != Mode::ConfirmDelete || shows_help(self.mode, self.doc_id@),
            },
    {
        if self.mode == Mode::ConfirmDelete && !self.shows_help() {
            Some(StoreOp::Delete { key: self.doc_id.clone() })
        } else {
            None
        }
    }
}

/// A document missing from the store starts every page that loads it, the
/// editable ones included, with the empty text.
pub proof fn lemma_missing_document(mode: Mode, id: Seq<char>)
    requires
        loads_from_store(mode, id),
    ensures
        initial_content_of(mode, id, None) == Seq::<char>::empty(),
{
}

} // verus!
