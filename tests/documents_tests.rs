use novarch::documents::{
    edit_package_document, extend_manual_document, is_package_document, load_desired,
    merge_package_lists, strip_packages, DocumentChange, DocumentEdit, DocumentError, LoadError,
};

fn list(v: &[&str]) -> Vec<String> {
    v.iter().map(|x| x.to_string()).collect()
}

fn texts(v: &[&str]) -> Vec<String> {
    list(v)
}

#[test]
fn yaml_files_are_documents() {
    assert!(is_package_document("base.yaml"));
    assert!(is_package_document("manual-install.yaml"));
    assert!(!is_package_document("notes.txt"));
    assert!(!is_package_document("base.yml"));
    assert!(!is_package_document("yaml"));
}

#[test]
fn lists_merge_without_duplicates() {
    let merged = merge_package_lists(&vec![list(&["vim", "git"]), list(&["git", "htop", "vim"]), list(&[])]);
    assert_eq!(merged, list(&["vim", "git", "htop"]));
}

#[test]
fn desired_names_from_documents() {
    let d = load_desired(&texts(&["- vim\n- git\n", "- git\n- htop\n"]), false).unwrap();
    assert_eq!(d.packages, list(&["vim", "git", "htop"]));
    assert!(d.skipped.is_empty());
}

#[test]
fn malformed_document_stops_loading() {
    let r = load_desired(&texts(&["- vim\n", "folder: [unclosed\n", "- git\n"]), false);
    assert_eq!(r.unwrap_err(), LoadError::Malformed { index: 1 });
}

#[test]
fn malformed_document_can_be_skipped() {
    let d = load_desired(&texts(&["- vim\n", "key: value\n", "- git\n"]), true).unwrap();
    assert_eq!(d.packages, list(&["vim", "git"]));
    assert_eq!(d.skipped, vec![1]);
}

#[test]
fn no_documents_no_names() {
    let d = load_desired(&vec![], false).unwrap();
    assert!(d.packages.is_empty());
}

#[test]
fn stripping_names_from_a_list() {
    assert_eq!(strip_packages(&list(&["vim", "git"]), &list(&["htop"])), DocumentEdit::Unchanged);
    assert_eq!(strip_packages(&list(&["vim"]), &list(&["vim"])), DocumentEdit::Delete);
    assert_eq!(
        strip_packages(&list(&["vim", "git", "htop"]), &list(&["git"])),
        DocumentEdit::Rewrite { packages: list(&["vim", "htop"]) }
    );
}

#[test]
fn editing_a_document_text() {
    assert_eq!(edit_package_document("- vim\n- git\n", &list(&["htop"])), Ok(DocumentChange::Unchanged));
    assert_eq!(edit_package_document("- vim\n", &list(&["vim"])), Ok(DocumentChange::Delete));
    assert_eq!(
        edit_package_document("- vim\n- git\n", &list(&["git"])),
        Ok(DocumentChange::Rewrite { text: "- vim\n".to_string() })
    );
    assert_eq!(edit_package_document("a: [", &list(&["git"])), Err(DocumentError::Malformed));
}

#[test]
fn manual_document_grows() {
    let t = extend_manual_document(Some("- vim\n"), &list(&["git"])).unwrap();
    assert_eq!(t, "- vim\n- git\n");
    let fresh = extend_manual_document(None, &list(&["htop"])).unwrap();
    assert_eq!(fresh, "- htop\n");
    let broken = extend_manual_document(Some("not: [a list"), &list(&["htop"])).unwrap();
    assert_eq!(broken, "- htop\n");
}
