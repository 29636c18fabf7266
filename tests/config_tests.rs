use novarch::config::{expand_folder, expand_home, Config};

fn list(v: &[&str]) -> Vec<String> {
    v.iter().map(|x| x.to_string()).collect()
}

#[test]
fn stored_duplicates_are_kept_once() {
    let c = Config::from_parts("/srv".to_string(), list(&["vim", "git", "vim"]));
    assert_eq!(c.packages, list(&["vim", "git"]));
    assert_eq!(c.package_count(), 2);
    assert_eq!(c.folder, "/srv");
}

#[test]
fn tracking_adds_only_new_names() {
    let mut c = Config::from_parts("/srv".to_string(), list(&["vim"]));
    let added = c.track(&list(&["git", "vim", "git", "htop"]));
    assert_eq!(added, list(&["git", "htop"]));
    assert_eq!(c.packages, list(&["vim", "git", "htop"]));
}

#[test]
fn untracking_keeps_the_rest_in_order() {
    let mut c = Config::from_parts("/srv".to_string(), list(&["vim", "git", "htop"]));
    c.untrack(&list(&["git", "tree"]));
    assert_eq!(c.packages, list(&["vim", "htop"]));
}

#[test]
fn new_config_is_empty() {
    let mut c = Config::new("/a".to_string());
    assert_eq!(c.package_count(), 0);
    c.set_folder("/b".to_string());
    assert_eq!(c.folder, "/b");
}

#[test]
fn home_is_expanded() {
    assert_eq!(expand_folder("  ~/pkgs \n", Some("alice")), "/home/alice/pkgs");
    assert_eq!(expand_folder("~/pkgs", None), "~/pkgs");
    assert_eq!(expand_folder(" /etc/pkgs ", Some("alice")), "/etc/pkgs");
    assert_eq!(expand_home("~", Some("bob")), "/home/bob");
    assert_eq!(expand_home("x~", Some("bob")), "x~");
}
