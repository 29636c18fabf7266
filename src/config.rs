//! The persisted document: the folder of desired-state documents and the
//! names of the packages this tool manages.
use vstd::prelude::*;
use vstd::string::{StrSliceExecFns, StringExecFns};
use crate::text::{has_prefix, starts_with_text, trim, trim_of};
use crate::packages::{
    contains_name, fresh, kept, lemma_fresh, lemma_kept, lemma_names_full, lemma_names_prefix, lemma_names_push,
    names, retain_names,
};

verus! {

/// The persisted state: where the desired-state documents live, and the names
/// of the packages this tool has installed and manages.
pub struct Config {
    pub folder: String,
    pub packages: Vec<String>,
}

impl Config {
    /// Each managed name appears once.
    pub open spec fn wf(&self) -> bool {
        names(self.packages@).no_duplicates()
    }

    /// A document that manages nothing yet.
    pub fn new(folder: String) -> (c: Config)
        ensures
            c.folder == folder,
            c.packages@.len() == 0,
            c.wf(),
    {
        let c = Config { folder, packages: Vec::new() };
        assert(names(c.packages@) =~= Seq::empty());
        c
    }

    /// A document from stored fields; a name stored twice is kept once, at
    /// its first place.
    pub fn from_parts(folder: String, packages: Vec<String>) -> (c: Config)
        ensures
            c.folder == folder,
            names(c.packages@) == fresh(Seq::empty(), names(packages@)),
            c.wf(),
    {
        let mut c = Config::new(folder);
        let ghost empty = names(c.packages@);
        assert(empty =~= Seq::empty());
        c.track(&packages);
        assert(names(c.packages@) =~= fresh(Seq::empty(), names(packages@)));
        c
    }

    /// Replaces the folder of desired-state documents.
    pub fn set_folder(&mut self, folder: String)
        ensures
            final(self).folder == folder,
            final(self).packages == old(self).packages,
    {
        self.folder = folder;
    }

    /// The number of managed packages.
    pub fn package_count(&self) -> (n: usize)
        ensures
            n == self.packages@.len(),
    {
        self.packages.len()
    }

    /// Adds to the managed names those of `packages` not managed yet, in
    /// order and each once, and returns the ones it added.
    pub fn track(&mut self, packages: &Vec<String>) -> (added: Vec<String>)
        ensures
            final(self).folder == old(self).folder,
            names(added@) == fresh(names(old(self).packages@), names(packages@)),
            names(final(self).packages@) == names(old(self).packages@) + names(added@),
            old(self).wf() ==> final(self).wf(),
    {
        let ghost base = names(self.packages@);
        let mut added: Vec<String> = Vec::new();
        let mut i: usize = 0;
        while i < packages.len()
            invariant
                i <= packages.len(),
                self.folder == old(self).folder,
                base == names(old(self).packages@),
                names(added@) == fresh(base, names(packages@.subrange(0, i as int))),
                names(self.packages@) == base + names(added@),
            decreases packages.len() - i,
        {
            let p = &packages[i];
            proof {
                lemma_names_prefix(packages@, i as int);
                assert(names(packages@.subrange(0, i + 1)).drop_last() =~= names(
                    packages@.subrange(0, i as int),
                ));
                lemma_names_push(added@, *p);
                lemma_names_push(self.packages@, *p);
            }
            if !contains_name(&self.packages, p) {
                self.packages.push(p.clone());
                added.push(p.clone());
                assert(names(self.packages@) =~= base + names(added@));
            }
            i = i + 1;
        }
        proof {
            lemma_names_full(packages@);
            lemma_fresh(base, names(packages@));
        }
        added
    }

    /// Removes from the managed names every one of `packages`, keeping the
    /// order of the rest.
    pub fn untrack(&mut self, packages: &Vec<String>)
        ensures
            final(self).folder == old(self).folder,
            names(final(self).packages@) == kept(
                names(old(self).packages@),
                names(packages@).to_set(),
            ),
            old(self).wf() ==> final(self).wf(),
    {
        let out = retain_names(&self.packages, packages);
        proof {
            lemma_kept(names(self.packages@), names(packages@).to_set());
        }
        self.packages = out;
    }
}

/// A folder as typed: a leading `~` stands for the user's home directory
/// under `/home` when the user is known; anything else is kept as it is.
pub open spec fn expanded_folder(typed: Seq<char>, user: Option<Seq<char>>) -> Seq<char> {
    if has_prefix(typed, "~"@) && user is Some {
        "/home/"@ + user->0 + typed.subrange(1, typed.len() as int)
    } else {
        typed
    }
}

/// The characters of the user's name, if known.
pub open spec fn user_view(user: Option<&str>) -> Option<Seq<char>> {
    match user {
        Some(u) => Some(u@),
        None => None,
    }
}

/// Expands a leading `~` of an already trimmed folder.
pub fn expand_home(typed: &str, user: Option<&str>) -> (r: String)
    ensures
        r@ == expanded_folder(typed@, user_view(user)),
{
    proof {
        reveal_strlit("~");
    }
    match user {
        Some(u) => {
            if starts_with_text(typed, "~") {
                let mut r = "/home/".to_owned();
                r.append(u);
                let rest = typed.substring_char(1, typed.unicode_len());
                r.append(rest);
                r
            } else {
                typed.to_owned()
            }
        },
        None => typed.to_owned(),
    }
}

/// The folder the user typed, trimmed, with a leading `~` expanded.
pub fn expand_folder(input: &str, user: Option<&str>) -> (r: String)
    ensures
        r@ == expanded_folder(trim_of(input@), user_view(user)),
{
    expand_home(trim(input), user)
}

} // verus!
