//! The search for a command on the executable search path.
//!
//! The search path is a list of directories separated by `:`. The directories
//! are taken left to right; one that does not exist is passed over, and the
//! first one that holds an entry by the wanted name ends the search. Reading a
//! directory is the caller's part: a `PathSearch` names the directory it needs
//! next and is handed what the directory holds.

use vstd::prelude::*;
use vstd::string::*;
use crate::launch::ShellError;
use crate::lexer::{lemma_split_nonempty, spec_split, split};
use crate::text::str_eq;

verus! {

/// The last component of a path: what follows its last `/`, or all of it.
pub open spec fn spec_final_component(path: Seq<char>) -> Seq<char> {
    spec_split(path, '/').last()
}

/// The first entry of a directory whose final component is `name`.
pub open spec fn spec_find(entries: Seq<Seq<char>>, name: Seq<char>) -> Option<Seq<char>>
    decreases entries.len(),
{
    if entries.len() == 0 {
        None
    } else if spec_final_component(entries[0]) == name {
        Some(entries[0])
    } else {
        spec_find(entries.drop_first(), name)
    }
}

/// What one directory contributes: nothing where it does not exist.
pub open spec fn spec_find_in(listing: Option<Seq<Seq<char>>>, name: Seq<char>) -> Option<Seq<char>> {
    match listing {
        Some(entries) => spec_find(entries, name),
        None => None,
    }
}

/// The result of the search, given what each directory of the search path
/// holds, in order: the match of the first directory that has one.
pub open spec fn spec_resolve(listings: Seq<Option<Seq<Seq<char>>>>, name: Seq<char>) -> Option<
    Seq<char>,
>
    decreases listings.len(),
{
    if listings.len() == 0 {
        None
    } else {
        match spec_find_in(listings[0], name) {
            Some(path) => Some(path),
            None => spec_resolve(listings.drop_first(), name),
        }
    }
}

/// The last component of a path.
pub fn final_component(path: &str) -> (name: String)
    ensures
        name@ == spec_final_component(path@),
{
    let mut parts = split(path, '/');
    proof {
        lemma_split_nonempty(path@, '/');
    }
    match parts.pop() {
        Some(name) => name,
        None => String::new(),
    }
}

/// The first entry of a directory whose final component is `name`.
pub fn find_entry(entries: &Vec<String>, name: &str) -> (found: Option<String>)
    ensures
        found.deep_view() == spec_find(entries.deep_view(), name@),
{
    let ghost all = entries.deep_view();
    let mut i: usize = 0;
    proof {
        assert(all.skip(0) =~= all);
    }
    while i < entries.len()
        invariant
            i <= entries.len(),
            all == entries.deep_view(),
            spec_find(all.skip(i as int), name@) == spec_find(all, name@),
        decreases entries.len() - i,
    {
        proof {
            assert(all.skip(i as int).drop_first() =~= all.skip(i + 1));
        }
        let last = final_component(entries[i].as_str());
        if str_eq(last.as_str(), name) {
            return Some(entries[i].clone());
        }
        i += 1;
    }
    None
}

/// A search as plain values.
pub struct PathSearchView {
    /// The name that is looked for.
    pub name: Seq<char>,
    /// The directories of the search path, in order.
    pub directories: Seq<Seq<char>>,
    /// How many of them have been looked into, or passed over.
    pub next: nat,
    /// The entry that was found.
    pub found: Option<Seq<char>>,
}

impl PathSearchView {
    /// The search for `name` on `search_path`, before any directory was read.
    pub open spec fn start(search_path: Seq<char>, name: Seq<char>) -> PathSearchView {
        PathSearchView {
            name,
            directories: spec_split(search_path, ':'),
            next: 0,
            found: None,
        }
    }

    /// Whether the search is over: something was found, or no directory is left.
    pub open spec fn is_over(self) -> bool {
        self.found is Some || self.next >= self.directories.len()
    }

    /// The directory that has to be read next.
    pub open spec fn wanted(self) -> Option<Seq<char>> {
        if self.is_over() {
            None
        } else {
            Some(self.directories[self.next as int])
        }
    }

    /// The search after it was told what the wanted directory holds. A search
    /// that is over stays as it is.
    pub open spec fn inspected(self, listing: Option<Seq<Seq<char>>>) -> PathSearchView {
        if self.is_over() {
            self
        } else {
            PathSearchView {
                next: self.next + 1,
                found: spec_find_in(listing, self.name),
                ..self
            }
        }
    }

    /// The search after it was told what one directory after the other holds.
    pub open spec fn inspected_all(self, listings: Seq<Option<Seq<Seq<char>>>>) -> PathSearchView
        decreases listings.len(),
    {
        if listings.len() == 0 {
            self
        } else {
            self.inspected(listings[0]).inspected_all(listings.drop_first())
        }
    }
}

/// A search for one command name along the search path, taken one directory
/// at a time.
#[derive(Debug)]
pub struct PathSearch {
    name: String,
    directories: Vec<String>,
    next: usize,
    found: Option<String>,
}

impl View for PathSearch {
    type V = PathSearchView;

    closed spec fn view(&self) -> PathSearchView {
        PathSearchView {
            name: self.name@,
            directories: self.directories.deep_view(),
            next: self.next as nat,
            found: self.found.deep_view(),
        }
    }
}

impl PathSearch {
    #[verifier::type_invariant]
    spec fn well_formed(self) -> bool {
        self.next <= self.directories.len()
    }

    /// Starts the search for `name` in the directories that `search_path`
    /// lists, separated by `:`.
    pub fn new(search_path: &str, name: &str) -> (search: PathSearch)
        ensures
            search@ == PathSearchView::start(search_path@, name@),
    {
        PathSearch {
            name: name.to_owned(),
            directories: split(search_path, ':'),
            next: 0,
            found: None,
        }
    }

    /// The directory that the caller has to read next, or `None` when the
    /// search is over.
    pub fn directory(&self) -> (wanted: Option<&String>)
        ensures
            wanted.deep_view() == self@.wanted(),
    {
        proof {
            use_type_invariant(self);
        }
        if self.found.is_some() || self.next >= self.directories.len() {
            None
        } else {
            Some(&self.directories[self.next])
        }
    }

    /// Tells the search what the wanted directory holds: the paths of its
    /// entries in the order in which they were read, or `None` where the
    /// directory does not exist. The first entry whose final component is the
    /// wanted name ends the search.
    pub fn inspect(&mut self, listing: Option<&Vec<String>>)
        ensures
            final(self)@ == old(self)@.inspected(listing.deep_view()),
    {
        proof {
            use_type_invariant(&*self);
        }
        if self.found.is_some() || self.next >= self.directories.len() {
            return ;
        }
        let found = match listing {
            Some(entries) => find_entry(entries, self.name.as_str()),
            None => None,
        };
        self.found = found;
        self.next = self.next + 1;
    }

    /// The path that was found, if any.
    pub fn found(&self) -> (found: Option<&String>)
        ensures
            found.deep_view() == self@.found,
    {
        self.found.as_ref()
    }

    /// The path of the program to run, or the failure to find the command
    /// where the search has come up with nothing.
    pub fn program(&self) -> (program: Result<String, ShellError>)
        ensures
            match program {
                Ok(path) => self@.found == Some(path@),
                Err(error) => self@.found is None && error == ShellError::CommandNotFound,
            },
    {
        match &self.found {
            Some(path) => Ok(path.clone()),
            None => Err(ShellError::CommandNotFound),
        }
    }
}

/// Resolves `name`, given what each directory of the search path holds, in
/// the order of the search path; `None` stands for a directory that does not
/// exist. Returns the match of the first directory that has one, and `None`
/// where no directory has.
pub fn resolve(name: &str, listings: &Vec<Option<Vec<String>>>) -> (found: Option<String>)
    ensures
        found.deep_view() == spec_resolve(listings.deep_view(), name@),
{
    let ghost all = listings.deep_view();
    let mut i: usize = 0;
    proof {
        assert(all.skip(0) =~= all);
    }
    while i < listings.len()
        invariant
            i <= listings.len(),
            all == listings.deep_view(),
            spec_resolve(all.skip(i as int), name@) == spec_resolve(all, name@),
        decreases listings.len() - i,
    {
        proof {
            assert(all.skip(i as int).drop_first() =~= all.skip(i + 1));
        }
        match &listings[i] {
            Some(entries) => {
                let found = find_entry(entries, name);
                if found.is_some() {
                    return found;
                }
            },
            None => {},
        }
        i += 1;
    }
    None
}

} // verus!
