//! The reconciler: from the desired names, the managed names and a snapshot of
//! the installed packages, the names to install and the names to remove.
use vstd::prelude::*;
use crate::commands::{install_command, install_view, remove_command, remove_view, CommandLine};
use crate::packages::{
    contains_name, fresh, installed, is_referenced, kept, lemma_fresh, lemma_kept,
    lemma_names_full, lemma_names_prefix, names, referenced, removable, PackageInfo,
};

verus! {

/// Desired but not yet managed.
pub open spec fn install_set(desired: Seq<Seq<char>>, managed: Seq<Seq<char>>) -> Set<Seq<char>> {
    desired.to_set().difference(managed.to_set())
}

/// Managed but no longer desired, installed, and needed by nothing installed.
pub open spec fn remove_set(
    desired: Seq<Seq<char>>,
    managed: Seq<Seq<char>>,
    snapshot: Seq<PackageInfo>,
) -> Set<Seq<char>> {
    managed.to_set().difference(desired.to_set()).filter(|n: Seq<char>| removable(snapshot, n))
}

/// What a reconciliation proposes; it changes nothing by itself.
#[derive(Debug)]
pub struct Plan {
    pub to_install: Vec<String>,
    pub to_remove: Vec<String>,
}

/// The plan holds exactly the two sets, each name once.
pub open spec fn is_plan_for(
    p: Plan,
    desired: Seq<Seq<char>>,
    managed: Seq<Seq<char>>,
    snapshot: Seq<PackageInfo>,
) -> bool {
    &&& names(p.to_install@).to_set() == install_set(desired, managed)
    &&& names(p.to_install@).no_duplicates()
    &&& names(p.to_remove@).to_set() == remove_set(desired, managed, snapshot)
    &&& names(p.to_remove@).no_duplicates()
}

impl Plan {
    /// The command that installs the names to install; none when there are none.
    pub fn install_step(&self) -> (c: Option<CommandLine>)
        ensures
            match c {
                None => self.to_install@.len() == 0,
                Some(c) => self.to_install@.len() > 0 && c@ == install_view(names(self.to_install@)),
            },
    {
        if self.to_install.len() == 0 {
            None
        } else {
            Some(install_command(&self.to_install))
        }
    }

    /// The command that removes the names to remove; none when there are none.
    pub fn remove_step(&self) -> (c: Option<CommandLine>)
        ensures
            match c {
                None => self.to_remove@.len() == 0,
                Some(c) => self.to_remove@.len() > 0 && c@ == remove_view(names(self.to_remove@)),
            },
    {
        if self.to_remove.len() == 0 {
            None
        } else {
            Some(remove_command(&self.to_remove))
        }
    }

    /// Nothing to install and nothing to remove.
    pub open spec fn spec_is_empty(&self) -> bool {
        self.to_install@.len() == 0 && self.to_remove@.len() == 0
    }

    /// Whether the plan has nothing to do; no command is to be run then.
    pub fn is_empty(&self) -> (r: bool)
        ensures
            r == self.spec_is_empty(),
    {
        self.to_install.len() == 0 && self.to_remove.len() == 0
    }
}

fn gather_install(desired: &Vec<String>, managed: &Vec<String>) -> (r: Vec<String>)
    ensures
        names(r@).to_set() == install_set(names(desired@), names(managed@)),
        names(r@).no_duplicates(),
{
    let mut out: Vec<String> = Vec::new();
    let mut i: usize = 0;
    while i < desired.len()
        invariant
            i <= desired.len(),
            names(out@).to_set() == install_set(names(desired@.subrange(0, i as int)), names(managed@)),
            names(out@).no_duplicates(),
        decreases desired.len() - i,
    {
        let d = &desired[i];
        proof {
            lemma_names_prefix(desired@, i as int);
            names(desired@.subrange(0, i as int)).lemma_push_to_set_commute(d@);
            crate::packages::lemma_names_push(out@, *d);
            names(out@).lemma_push_to_set_commute(d@);
        }
        if !contains_name(managed, d) && !contains_name(&out, d) {
            out.push(d.clone());
        }
        proof {
            assert(names(out@).to_set() =~= install_set(
                names(desired@.subrange(0, i + 1)),
                names(managed@),
            ));
        }
        i = i + 1;
    }
    proof {
        lemma_names_full(desired@);
    }
    out
}

fn gather_remove(desired: &Vec<String>, managed: &Vec<String>, snapshot: &Vec<PackageInfo>) -> (r:
    Vec<String>)
    ensures
        names(r@).to_set() == remove_set(names(desired@), names(managed@), snapshot@),
        names(r@).no_duplicates(),
{
    let mut out: Vec<String> = Vec::new();
    let mut i: usize = 0;
    while i < managed.len()
        invariant
            i <= managed.len(),
            names(out@).to_set() == remove_set(
                names(desired@),
                names(managed@.subrange(0, i as int)),
                snapshot@,
            ),
            names(out@).no_duplicates(),
        decreases managed.len() - i,
    {
        let t = &managed[i];
        proof {
            lemma_names_prefix(managed@, i as int);
            names(managed@.subrange(0, i as int)).lemma_push_to_set_commute(t@);
            crate::packages::lemma_names_push(out@, *t);
            names(out@).lemma_push_to_set_commute(t@);
        }
        if !contains_name(desired, t) && installed(snapshot, t) && !referenced(snapshot, t)
            && !contains_name(&out, t) {
            out.push(t.clone());
        }
        proof {
            assert(names(out@).to_set() =~= remove_set(
                names(desired@),
                names(managed@.subrange(0, i + 1)),
                snapshot@,
            ));
        }
        i = i + 1;
    }
    proof {
        lemma_names_full(managed@);
    }
    out
}

/// Proposes what to install and what to remove so that the system matches
/// the desired names: install what is desired and not managed; remove what is
/// managed and no longer desired, but only where it is installed and no
/// installed package depends on it.
pub fn plan(desired: &Vec<String>, managed: &Vec<String>, snapshot: &Vec<PackageInfo>) -> (p: Plan)
    ensures
        is_plan_for(p, names(desired@), names(managed@), snapshot@),
{
    let to_install = gather_install(desired, managed);
    let to_remove = gather_remove(desired, managed, snapshot);
    Plan { to_install, to_remove }
}

/// The managed names once a plan has been carried out: the new names
/// appended, then the removed ones taken out.
pub open spec fn managed_after(
    managed: Seq<Seq<char>>,
    install: Seq<Seq<char>>,
    remove: Seq<Seq<char>>,
) -> Seq<Seq<char>> {
    kept(managed + fresh(managed, install), remove.to_set())
}

proof fn lemma_empty_set_empty_seq(s: Seq<Seq<char>>)
    requires
        s.to_set() == Set::<Seq<char>>::empty(),
    ensures
        s.len() == 0,
{
    if s.len() > 0 {
        assert(s.to_set().contains(s[0]));
    }
}

proof fn lemma_kept_nothing(s: Seq<Seq<char>>)
    ensures
        kept(s, Set::empty()) == s,
    decreases s.len(),
{
    if s.len() > 0 {
        lemma_kept_nothing(s.drop_last());
        assert(s.drop_last().push(s.last()) =~= s);
    }
}

/// No name is proposed both for installation and for removal.
pub proof fn lemma_plan_disjoint(
    p: Plan,
    desired: Seq<Seq<char>>,
    managed: Seq<Seq<char>>,
    snapshot: Seq<PackageInfo>,
)
    requires
        is_plan_for(p, desired, managed, snapshot),
    ensures
        forall|n: Seq<char>|
            names(p.to_install@).contains(n) ==> !names(p.to_remove@).contains(n),
{
    assert forall|n: Seq<char>| names(p.to_install@).contains(n) implies !names(
        p.to_remove@,
    ).contains(n) by {
        assert(names(p.to_install@).to_set().contains(n));
        if names(p.to_remove@).contains(n) {
            assert(names(p.to_remove@).to_set().contains(n));
        }
    }
}

/// When the desired names are exactly the managed ones, the plan is empty,
/// so no command runs, and carrying it out leaves the managed names as they
/// were.
pub proof fn lemma_settled_plan_is_empty(
    p: Plan,
    desired: Seq<Seq<char>>,
    managed: Seq<Seq<char>>,
    snapshot: Seq<PackageInfo>,
)
    requires
        is_plan_for(p, desired, managed, snapshot),
        desired.to_set() == managed.to_set(),
    ensures
        p.spec_is_empty(),
        managed_after(managed, names(p.to_install@), names(p.to_remove@)) == managed,
{
    assert(install_set(desired, managed) =~= Set::empty());
    assert(remove_set(desired, managed, snapshot) =~= Set::empty());
    lemma_empty_set_empty_seq(names(p.to_install@));
    lemma_empty_set_empty_seq(names(p.to_remove@));
    assert(fresh(managed, names(p.to_install@)) =~= Seq::empty());
    assert(managed + fresh(managed, names(p.to_install@)) =~= managed);
    assert(names(p.to_remove@).to_set() =~= Set::empty());
    lemma_kept_nothing(managed);
}

/// Reconciling a second time, after the first plan was carried out and with
/// nothing else changed on the system, proposes nothing. "Nothing else
/// changed" means: a package that is not desired and may be removed now could
/// already be removed before.
pub proof fn lemma_reconcile_idempotent(
    first: Plan,
    second: Plan,
    desired: Seq<Seq<char>>,
    managed: Seq<Seq<char>>,
    before: Seq<PackageInfo>,
    after: Seq<PackageInfo>,
)
    requires
        is_plan_for(first, desired, managed, before),
        is_plan_for(
            second,
            desired,
            managed_after(managed, names(first.to_install@), names(first.to_remove@)),
            after,
        ),
        forall|n: Seq<char>|
            !desired.contains(n) && removable(after, n) ==> removable(before, n),
    ensures
        second.spec_is_empty(),
{
    let install = names(first.to_install@);
    let remove = names(first.to_remove@);
    let grown = managed + fresh(managed, install);
    let next = managed_after(managed, install, remove);
    lemma_fresh(managed, install);
    lemma_kept(grown, remove.to_set());
    vstd::seq_lib::seq_to_set_distributes_over_add(managed, fresh(managed, install));
    assert(install_set(desired, next) =~= Set::empty()) by {
        assert forall|n: Seq<char>| desired.to_set().contains(n) implies next.to_set().contains(
            n,
        ) by {
            assert(!remove.to_set().contains(n));
            if !managed.to_set().contains(n) {
                assert(install.to_set().contains(n));
            }
        }
    }
    assert(remove_set(desired, next, after) =~= Set::empty()) by {
        assert forall|n: Seq<char>| next.to_set().contains(n) && !desired.to_set().contains(n)
            implies !removable(after, n) by {
            assert(!install.to_set().contains(n));
            assert(managed.to_set().contains(n));
            assert(!remove.to_set().contains(n));
            assert(!desired.contains(n));
        }
    }
    lemma_empty_set_empty_seq(names(second.to_install@));
    lemma_empty_set_empty_seq(names(second.to_remove@));
}

/// A package that some installed package depends on is never proposed for
/// removal, even when it is no longer desired.
pub proof fn lemma_referenced_never_removed(
    p: Plan,
    desired: Seq<Seq<char>>,
    managed: Seq<Seq<char>>,
    snapshot: Seq<PackageInfo>,
    n: Seq<char>,
)
    requires
        is_plan_for(p, desired, managed, snapshot),
        is_referenced(snapshot, n),
    ensures
        !names(p.to_remove@).contains(n),
{
    if names(p.to_remove@).contains(n) {
        assert(names(p.to_remove@).to_set().contains(n));
    }
}

} // verus!
