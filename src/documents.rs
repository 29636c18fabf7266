//! The desired-state documents: YAML lists of package names, one list per
//! file of the configured folder.
use vstd::prelude::*;
use crate::packages::{contains_name, fresh, kept, lemma_names_push, names, retain_names};
use crate::text::{ends_with_text, has_suffix};

verus! {

#[verifier::external_type_specification]
#[verifier::external_body]
pub struct ExYamlError(serde_yaml_ng::Error);

/// What `serde_yaml_ng::from_str` makes of the text as a list of strings, if
/// it accepts it.
pub uninterp spec fn parsed_list(text: Seq<char>) -> Option<Seq<Seq<char>>>;

/// What `serde_yaml_ng::to_string` writes for a list of strings, if it succeeds.
pub uninterp spec fn rendered_list(list: Seq<Seq<char>>) -> Option<Seq<char>>;

/// Relies on `serde_yaml_ng::from_str::<Vec<String>>`: whether it accepts the
/// text, and the list it reads, depend on the text alone.
#[verifier::external_body]
fn parse_list(text: &str) -> (r: Result<Vec<String>, serde_yaml_ng::Error>)
    ensures
        match r {
            Ok(v) => parsed_list(text@) == Some(names(v@)),
            Err(_) => parsed_list(text@) is None,
        },
{
    serde_yaml_ng::from_str::<Vec<String>>(text)
}

/// Relies on `serde_yaml_ng::to_string` on a `Vec<String>`: whether it
/// succeeds, and the text it writes, depend on the names alone.
#[verifier::external_body]
fn render_list(list: &Vec<String>) -> (r: Result<String, serde_yaml_ng::Error>)
    ensures
        match r {
            Ok(t) => rendered_list(names(list@)) == Some(t@),
            Err(_) => rendered_list(names(list@)) is None,
        },
{
    serde_yaml_ng::to_string(list)
}

/// The suffix that marks a file of the folder as a desired-state document.
pub open spec fn document_suffix() -> Seq<char> {
    ".yaml"@
}

/// Whether a file of the folder, by its name, is a desired-state document.
pub fn is_package_document(file_name: &str) -> (r: bool)
    ensures
        r == has_suffix(file_name@, document_suffix()),
{
    ends_with_text(file_name, ".yaml")
}

/// Why a document could not be used.
#[derive(PartialEq, Eq, Structural, Debug, Clone, Copy)]
pub enum DocumentError {
    /// The text is not a YAML list of strings.
    Malformed,
    /// The list could not be written back as YAML.
    Unrenderable,
}

/// Why the desired names could not be gathered.
#[derive(PartialEq, Eq, Structural, Debug, Clone, Copy)]
pub enum LoadError {
    /// The document at this position is not a YAML list of strings.
    Malformed { index: usize },
}

/// All names of the lists, one list after the other.
pub open spec fn concat_names(lists: Seq<Vec<String>>) -> Seq<Seq<char>>
    decreases lists.len(),
{
    if lists.len() == 0 {
        Seq::empty()
    } else {
        concat_names(lists.drop_last()) + names(lists.last()@)
    }
}

/// All names of the documents that parse, one document after the other.
pub open spec fn parsed_names(texts: Seq<String>) -> Seq<Seq<char>>
    decreases texts.len(),
{
    if texts.len() == 0 {
        Seq::empty()
    } else {
        let r = parsed_names(texts.drop_last());
        match parsed_list(texts.last()@) {
            Some(l) => r + l,
            None => r,
        }
    }
}

/// The positions of the documents that do not parse, in order.
pub open spec fn malformed_indices(texts: Seq<String>) -> Seq<usize>
    decreases texts.len(),
{
    if texts.len() == 0 {
        Seq::empty()
    } else {
        let r = malformed_indices(texts.drop_last());
        if parsed_list(texts.last()@) is None {
            r.push((texts.len() - 1) as usize)
        } else {
            r
        }
    }
}

/// Appends the names of `items` that `out` does not hold yet, each once.
fn append_fresh(out: &mut Vec<String>, items: &Vec<String>, Ghost(flat): Ghost<Seq<Seq<char>>>)
    requires
        names(old(out)@) == fresh(Seq::empty(), flat),
    ensures
        names(final(out)@) == fresh(Seq::empty(), flat + names(items@)),
{
    let mut j: usize = 0;
    while j < items.len()
        invariant
            j <= items.len(),
            names(out@) == fresh(Seq::empty(), flat + names(items@.subrange(0, j as int))),
        decreases items.len() - j,
    {
        let x = &items[j];
        let ghost before = flat + names(items@.subrange(0, j as int));
        proof {
            crate::packages::lemma_names_prefix(items@, j as int);
            assert((flat + names(items@.subrange(0, j + 1))).drop_last() =~= before);
            assert(Seq::<Seq<char>>::empty() + fresh(Seq::empty(), before) =~= fresh(
                Seq::empty(),
                before,
            ));
            lemma_names_push(out@, *x);
        }
        if !contains_name(out, x) {
            out.push(x.clone());
        }
        j = j + 1;
    }
    proof {
        crate::packages::lemma_names_full(items@);
    }
}

/// The names of all lists, each once, in the order of first appearance.
pub fn merge_package_lists(lists: &Vec<Vec<String>>) -> (r: Vec<String>)
    ensures
        names(r@) == fresh(Seq::empty(), concat_names(lists@)),
{
    let mut out: Vec<String> = Vec::new();
    assert(names(out@) =~= fresh(Seq::empty(), concat_names(lists@.subrange(0, 0))));
    let mut i: usize = 0;
    while i < lists.len()
        invariant
            i <= lists.len(),
            names(out@) == fresh(Seq::empty(), concat_names(lists@.subrange(0, i as int))),
        decreases lists.len() - i,
    {
        assert(lists@.subrange(0, i + 1).drop_last() =~= lists@.subrange(0, i as int));
        append_fresh(&mut out, &lists[i], Ghost(concat_names(lists@.subrange(0, i as int))));
        i = i + 1;
    }
    assert(lists@.subrange(0, lists.len() as int) =~= lists@);
    out
}

/// The result of gathering the desired names.
#[derive(Debug)]
pub struct DesiredLoad {
    /// Every name of the documents that parse, each once, in the order of
    /// first appearance.
    pub packages: Vec<String>,
    /// The positions of the documents that were skipped as malformed.
    pub skipped: Vec<usize>,
}

/// Gathers the desired names from the texts of the documents. A malformed
/// document is skipped and its position reported when `skip_malformed` holds;
/// otherwise the first one stops the gathering.
pub fn load_desired(texts: &Vec<String>, skip_malformed: bool) -> (r: Result<DesiredLoad, LoadError>)
    ensures
        r is Err <==> !skip_malformed && exists|j: int|
            0 <= j < texts@.len() && parsed_list((#[trigger] texts@[j])@) is None,
        match r {
            Ok(d) => {
                &&& names(d.packages@) == fresh(Seq::empty(), parsed_names(texts@))
                &&& d.skipped@ == malformed_indices(texts@)
            },
            Err(LoadError::Malformed { index }) => {
                &&& index < texts@.len()
                &&& parsed_list(texts@[index as int]@) is None
                &&& forall|j: int| 0 <= j < index ==> parsed_list((#[trigger] texts@[j])@) is Some
            },
        },
{
    let mut out: Vec<String> = Vec::new();
    let mut skipped: Vec<usize> = Vec::new();
    assert(names(out@) =~= fresh(Seq::empty(), parsed_names(texts@.subrange(0, 0))));
    assert(skipped@ =~= malformed_indices(texts@.subrange(0, 0)));
    let mut i: usize = 0;
    while i < texts.len()
        invariant
            i <= texts.len(),
            names(out@) == fresh(Seq::empty(), parsed_names(texts@.subrange(0, i as int))),
            skipped@ == malformed_indices(texts@.subrange(0, i as int)),
            !skip_malformed ==> forall|j: int| 0 <= j < i ==> parsed_list((#[trigger] texts@[j])@) is Some,
        decreases texts.len() - i,
    {
        let ghost prefix = texts@.subrange(0, i as int);
        assert(texts@.subrange(0, i + 1).drop_last() =~= prefix);
        assert(texts@.subrange(0, i + 1).last() == texts@[i as int]);
        match parse_list(texts[i].as_str()) {
            Ok(list) => {
                append_fresh(&mut out, &list, Ghost(parsed_names(prefix)));
            },
            Err(_) => {
                if skip_malformed {
                    skipped.push(i);
                } else {
                    return Err(LoadError::Malformed { index: i });
                }
            },
        }
        i = i + 1;
    }
    assert(texts@.subrange(0, texts.len() as int) =~= texts@);
    Ok(DesiredLoad { packages: out, skipped })
}

/// What removing names does to one document's list.
#[derive(Debug, PartialEq, Eq)]
pub enum DocumentEdit {
    /// The list names none of them.
    Unchanged,
    /// Nothing is left: the document goes.
    Delete,
    /// The document keeps these names.
    Rewrite { packages: Vec<String> },
}

/// Takes `removed` out of a document's list.
pub fn strip_packages(list: &Vec<String>, removed: &Vec<String>) -> (e: DocumentEdit)
    ensures
        ({
            let k = kept(names(list@), names(removed@).to_set());
            match e {
                DocumentEdit::Unchanged => k.len() == list@.len(),
                DocumentEdit::Delete => k.len() < list@.len() && k.len() == 0,
                DocumentEdit::Rewrite { packages } => k.len() < list@.len() && k.len() > 0
                    && names(packages@) == k,
            }
        }),
{
    let left = retain_names(list, removed);
    proof {
        crate::packages::lemma_kept(names(list@), names(removed@).to_set());
    }
    if left.len() == list.len() {
        DocumentEdit::Unchanged
    } else if left.len() == 0 {
        DocumentEdit::Delete
    } else {
        DocumentEdit::Rewrite { packages: left }
    }
}

/// What removing names does to one document's text.
#[derive(Debug, PartialEq, Eq)]
pub enum DocumentChange {
    /// The document names none of them.
    Unchanged,
    /// Nothing is left: the document goes.
    Delete,
    /// The document's new text.
    Rewrite { text: String },
}

/// Takes `removed` out of a document given as text.
pub fn edit_package_document(text: &str, removed: &Vec<String>) -> (r: Result<
    DocumentChange,
    DocumentError,
>)
    ensures
        match parsed_list(text@) {
            None => r == Err::<DocumentChange, DocumentError>(DocumentError::Malformed),
            Some(l) => {
                let k = kept(l, names(removed@).to_set());
                if k.len() == l.len() {
                    r is Ok && r->Ok_0 is Unchanged
                } else if k.len() == 0 {
                    r is Ok && r->Ok_0 is Delete
                } else {
                    match rendered_list(k) {
                        Some(t) => r is Ok && r->Ok_0 is Rewrite && r->Ok_0->text@ == t,
                        None => r == Err::<DocumentChange, DocumentError>(
                            DocumentError::Unrenderable,
                        ),
                    }
                }
            },
        },
{
    let list = match parse_list(text) {
        Ok(l) => l,
        Err(_) => return Err(DocumentError::Malformed),
    };
    match strip_packages(&list, removed) {
        DocumentEdit::Unchanged => Ok(DocumentChange::Unchanged),
        DocumentEdit::Delete => Ok(DocumentChange::Delete),
        DocumentEdit::Rewrite { packages } => match render_list(&packages) {
            Ok(t) => Ok(DocumentChange::Rewrite { text: t }),
            Err(_) => Err(DocumentError::Unrenderable),
        },
    }
}

/// The text of the document of manually added packages once `added` is
/// appended to it. A missing or malformed document counts as an empty list.
pub fn extend_manual_document(existing: Option<&str>, added: &Vec<String>) -> (r: Result<
    String,
    DocumentError,
>)
    ensures
        ({
            let base = match existing {
                Some(t) => match parsed_list(t@) {
                    Some(l) => l,
                    None => Seq::empty(),
                },
                None => Seq::empty(),
            };
            match rendered_list(base + names(added@)) {
                Some(t) => r is Ok && r->Ok_0@ == t,
                None => r == Err::<String, DocumentError>(DocumentError::Unrenderable),
            }
        }),
{
    let mut list: Vec<String> = match existing {
        Some(t) => match parse_list(t) {
            Ok(l) => l,
            Err(_) => Vec::new(),
        },
        None => Vec::new(),
    };
    let ghost base = names(list@);
    proof {
        if list@.len() == 0 {
            assert(base =~= Seq::empty());
        }
    }
    let mut j: usize = 0;
    while j < added.len()
        invariant
            j <= added.len(),
            names(list@) == base + names(added@.subrange(0, j as int)),
        decreases added.len() - j,
    {
        proof {
            crate::packages::lemma_names_prefix(added@, j as int);
            lemma_names_push(list@, added@[j as int]);
        }
        list.push(added[j].clone());
        assert(names(list@) =~= base + names(added@.subrange(0, j + 1)));
        j = j + 1;
    }
    proof {
        crate::packages::lemma_names_full(added@);
    }
    match render_list(&list) {
        Ok(t) => Ok(t),
        Err(_) => Err(DocumentError::Unrenderable),
    }
}

} // verus!
