//! Package names, and the snapshot of the local package database that the
//! decisions read.
use vstd::prelude::*;

verus! {

/// The names held by a list of strings.
pub open spec fn names(v: Seq<String>) -> Seq<Seq<char>> {
    v.map_values(|s: String| s@)
}

/// The names of a list with one more string end with that string's name.
pub proof fn lemma_names_push(v: Seq<String>, s: String)
    ensures
        names(v.push(s)) == names(v).push(s@),
{
    assert(names(v.push(s)) =~= names(v).push(s@));
}

/// The names of a prefix one longer end with the next string's name.
pub proof fn lemma_names_prefix(v: Seq<String>, i: int)
    requires
        0 <= i < v.len(),
    ensures
        names(v.subrange(0, i + 1)) == names(v.subrange(0, i)).push(v[i]@),
{
    assert(v.subrange(0, i + 1) =~= v.subrange(0, i).push(v[i]));
    lemma_names_push(v.subrange(0, i), v[i]);
}

/// The names of the whole prefix are the names of the list.
pub proof fn lemma_names_full(v: Seq<String>)
    ensures
        names(v.subrange(0, v.len() as int)) == names(v),
{
    assert(v.subrange(0, v.len() as int) =~= v);
}

/// The names of `p` that are neither in `base` nor earlier in `p`, in order.
pub open spec fn fresh(base: Seq<Seq<char>>, p: Seq<Seq<char>>) -> Seq<Seq<char>>
    decreases p.len(),
{
    if p.len() == 0 {
        Seq::empty()
    } else {
        let f = fresh(base, p.drop_last());
        if (base + f).contains(p.last()) {
            f
        } else {
            f.push(p.last())
        }
    }
}

/// The names of `s` that are not in `dropped`, in order.
pub open spec fn kept(s: Seq<Seq<char>>, dropped: Set<Seq<char>>) -> Seq<Seq<char>>
    decreases s.len(),
{
    if s.len() == 0 {
        Seq::empty()
    } else {
        let r = kept(s.drop_last(), dropped);
        if dropped.contains(s.last()) {
            r
        } else {
            r.push(s.last())
        }
    }
}

/// The fresh names are those of `p` outside `base`, and appending them to a
/// list without repeats keeps it without repeats.
pub proof fn lemma_fresh(base: Seq<Seq<char>>, p: Seq<Seq<char>>)
    ensures
        fresh(base, p).to_set() == p.to_set().difference(base.to_set()),
        base.no_duplicates() ==> (base + fresh(base, p)).no_duplicates(),
    decreases p.len(),
{
    if p.len() == 0 {
        assert(fresh(base, p).to_set() =~= p.to_set().difference(base.to_set()));
        assert(base + fresh(base, p) =~= base);
    } else {
        let q = p.drop_last();
        let f = fresh(base, q);
        lemma_fresh(base, q);
        assert(p =~= q.push(p.last()));
        q.lemma_push_to_set_commute(p.last());
        f.lemma_push_to_set_commute(p.last());
        vstd::seq_lib::seq_to_set_distributes_over_add(base, f);
        assert((base + f).push(p.last()) =~= base + f.push(p.last()));
        let x = p.last();
        assert((base + f).contains(x) <==> (base + f).to_set().contains(x));
        assert((base + f).to_set().contains(x) <==> base.to_set().contains(x) || f.to_set().contains(x));
        assert(fresh(base, p).to_set() =~= p.to_set().difference(base.to_set()));
        if base.no_duplicates() {
            if !(base + f).contains(x) {
                assert((base + f).push(x).no_duplicates()) by {
                    let bf = base + f;
                    assert forall|a: int, b: int| 0 <= a < b < bf.push(x).len() implies bf.push(x)[a] != bf.push(x)[b] by {
                        if b == bf.len() {
                            assert(bf[a] == bf.push(x)[a]);
                        }
                    }
                }
            }
        }
    }
}

/// The kept names are those of `s` outside `dropped`; keeping never adds a
/// repeat or lengthens the list.
pub proof fn lemma_kept(s: Seq<Seq<char>>, dropped: Set<Seq<char>>)
    ensures
        kept(s, dropped).to_set() == s.to_set().difference(dropped),
        s.no_duplicates() ==> kept(s, dropped).no_duplicates(),
        kept(s, dropped).len() <= s.len(),
    decreases s.len(),
{
    if s.len() == 0 {
        assert(kept(s, dropped).to_set() =~= s.to_set().difference(dropped));
    } else {
        let q = s.drop_last();
        lemma_kept(q, dropped);
        assert(s =~= q.push(s.last()));
        q.lemma_push_to_set_commute(s.last());
        kept(q, dropped).lemma_push_to_set_commute(s.last());
        if s.no_duplicates() {
            assert(q.no_duplicates());
            assert(!q.contains(s.last())) by {
                if q.contains(s.last()) {
                    let k = choose|k: int| 0 <= k < q.len() && q[k] == s.last();
                    assert(s[k] == s[s.len() - 1]);
                }
            }
            assert(!kept(q, dropped).to_set().contains(s.last()));
        }
        assert(kept(s, dropped).to_set() =~= s.to_set().difference(dropped));
    }
}

/// The names of `list` that are not in `removed`, in order.
pub fn retain_names(list: &Vec<String>, removed: &Vec<String>) -> (r: Vec<String>)
    ensures
        names(r@) == kept(names(list@), names(removed@).to_set()),
{
    let ghost dropped = names(removed@).to_set();
    let mut out: Vec<String> = Vec::new();
    let mut i: usize = 0;
    while i < list.len()
        invariant
            i <= list.len(),
            dropped == names(removed@).to_set(),
            names(out@) == kept(names(list@.subrange(0, i as int)), dropped),
        decreases list.len() - i,
    {
        let p = &list[i];
        proof {
            lemma_names_prefix(list@, i as int);
            assert(names(list@.subrange(0, i + 1)).drop_last() =~= names(
                list@.subrange(0, i as int),
            ));
            lemma_names_push(out@, *p);
        }
        if !contains_name(removed, p) {
            out.push(p.clone());
        }
        i = i + 1;
    }
    proof {
        lemma_names_full(list@);
    }
    out
}

/// Why a package was installed.
#[derive(PartialEq, Eq, Structural, Debug, Clone, Copy)]
pub enum InstallReason {
    /// Asked for by name.
    Explicit,
    /// Pulled in as a dependency of another package.
    Depend,
}

/// One installed package as the local database records it.
#[derive(Debug, Clone)]
pub struct PackageInfo {
    pub name: String,
    pub reason: InstallReason,
    /// The installed packages that require this one.
    pub required_by: Vec<String>,
    /// The installed packages that list this one as an optional dependency.
    pub optional_for: Vec<String>,
}

/// Some other installed package lists `p` as a required or optional dependency.
pub open spec fn has_dependents(p: PackageInfo) -> bool {
    p.required_by@.len() > 0 || p.optional_for@.len() > 0
}

/// `n` is the name of an installed package of the snapshot.
pub open spec fn is_installed(snapshot: Seq<PackageInfo>, n: Seq<char>) -> bool {
    exists|i: int| 0 <= i < snapshot.len() && (#[trigger] snapshot[i]).name@ == n
}

/// Some installed package of the snapshot depends on `n`, as required or optional.
pub open spec fn is_referenced(snapshot: Seq<PackageInfo>, n: Seq<char>) -> bool {
    exists|i: int|
        0 <= i < snapshot.len() && (#[trigger] snapshot[i]).name@ == n && has_dependents(snapshot[i])
}

/// `n` is installed and nothing installed depends on it: removing it breaks nothing.
pub open spec fn removable(snapshot: Seq<PackageInfo>, n: Seq<char>) -> bool {
    is_installed(snapshot, n) && !is_referenced(snapshot, n)
}

/// Installed only as a dependency, and no longer needed by anything.
pub open spec fn is_orphan(p: PackageInfo) -> bool {
    p.reason == InstallReason::Depend && !has_dependents(p)
}

/// The names of the orphans of a snapshot, in its order.
pub open spec fn orphan_names(s: Seq<PackageInfo>) -> Seq<Seq<char>>
    decreases s.len(),
{
    if s.len() == 0 {
        Seq::empty()
    } else {
        let rest = orphan_names(s.drop_last());
        if is_orphan(s.last()) {
            rest.push(s.last().name@)
        } else {
            rest
        }
    }
}

/// Whether `v` holds the name `n`.
pub fn contains_name(v: &Vec<String>, n: &String) -> (r: bool)
    ensures
        r == names(v@).contains(n@),
{
    let mut i: usize = 0;
    while i < v.len()
        invariant
            i <= v.len(),
            forall|k: int| 0 <= k < i ==> v@[k]@ != n@,
        decreases v.len() - i,
    {
        if v[i] == *n {
            assert(names(v@)[i as int] == n@);
            return true;
        }
        i = i + 1;
    }
    false
}

/// Whether the snapshot holds a package named `n`.
pub fn installed(snapshot: &Vec<PackageInfo>, n: &String) -> (r: bool)
    ensures
        r == is_installed(snapshot@, n@),
{
    let mut i: usize = 0;
    while i < snapshot.len()
        invariant
            i <= snapshot.len(),
            forall|k: int| 0 <= k < i ==> (#[trigger] snapshot@[k]).name@ != n@,
        decreases snapshot.len() - i,
    {
        if snapshot[i].name == *n {
            return true;
        }
        i = i + 1;
    }
    false
}

/// Whether the snapshot records some installed package that depends on `n`.
pub fn referenced(snapshot: &Vec<PackageInfo>, n: &String) -> (r: bool)
    ensures
        r == is_referenced(snapshot@, n@),
{
    let mut i: usize = 0;
    while i < snapshot.len()
        invariant
            i <= snapshot.len(),
            forall|k: int|
                0 <= k < i ==> !((#[trigger] snapshot@[k]).name@ == n@ && has_dependents(snapshot@[k])),
        decreases snapshot.len() - i,
    {
        let p = &snapshot[i];
        if p.name == *n && (p.required_by.len() > 0 || p.optional_for.len() > 0) {
            return true;
        }
        i = i + 1;
    }
    false
}

/// The names of the packages that were installed only as dependencies and that
/// no installed package needs any more, in the order of the snapshot.
pub fn select_orphans(snapshot: &Vec<PackageInfo>) -> (r: Vec<String>)
    ensures
        names(r@) == orphan_names(snapshot@),
{
    let mut out: Vec<String> = Vec::new();
    let mut i: usize = 0;
    while i < snapshot.len()
        invariant
            i <= snapshot.len(),
            names(out@) == orphan_names(snapshot@.subrange(0, i as int)),
        decreases snapshot.len() - i,
    {
        let p = &snapshot[i];
        assert(snapshot@.subrange(0, i + 1).drop_last() =~= snapshot@.subrange(0, i as int));
        if p.reason == InstallReason::Depend && p.required_by.len() == 0 && p.optional_for.len() == 0 {
            proof {
                lemma_names_push(out@, p.name);
            }
            out.push(p.name.clone());
        }
        i = i + 1;
    }
    assert(snapshot@.subrange(0, snapshot.len() as int) =~= snapshot@);
    out
}

} // verus!
