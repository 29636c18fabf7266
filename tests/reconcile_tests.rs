use novarch::packages::{select_orphans, InstallReason, PackageInfo};
use novarch::reconcile::plan;
use novarch::commands::orphan_cleanup;

fn list(v: &[&str]) -> Vec<String> {
    v.iter().map(|x| x.to_string()).collect()
}

fn sorted(mut v: Vec<String>) -> Vec<String> {
    v.sort();
    v
}

fn pkg(name: &str, reason: InstallReason, required_by: &[&str], optional_for: &[&str]) -> PackageInfo {
    PackageInfo {
        name: name.to_string(),
        reason,
        required_by: list(required_by),
        optional_for: list(optional_for),
    }
}

fn free(name: &str) -> PackageInfo {
    pkg(name, InstallReason::Explicit, &[], &[])
}

#[test]
fn new_desired_package_is_installed() {
    let p = plan(&list(&["vim", "git"]), &list(&["vim"]), &vec![free("vim")]);
    assert_eq!(p.to_install, list(&["git"]));
    assert!(p.to_remove.is_empty());
}

#[test]
fn undesired_unreferenced_package_is_removed() {
    let p = plan(&list(&["vim"]), &list(&["vim", "htop"]), &vec![free("vim"), free("htop")]);
    assert!(p.to_install.is_empty());
    assert_eq!(p.to_remove, list(&["htop"]));
}

#[test]
fn required_package_is_not_removed() {
    let snapshot = vec![free("vim"), pkg("htop", InstallReason::Explicit, &["glances"], &[]), free("glances")];
    let p = plan(&list(&["vim"]), &list(&["vim", "htop"]), &snapshot);
    assert!(p.to_install.is_empty());
    assert!(p.to_remove.is_empty());
}

#[test]
fn optional_dependency_is_not_removed() {
    let snapshot = vec![free("vim"), pkg("htop", InstallReason::Explicit, &[], &["glances"])];
    let p = plan(&list(&["vim"]), &list(&["vim", "htop"]), &snapshot);
    assert!(p.to_remove.is_empty());
}

#[test]
fn uninstalled_package_is_not_removed() {
    let p = plan(&list(&["vim"]), &list(&["vim", "htop"]), &vec![free("vim")]);
    assert!(p.to_remove.is_empty());
}

#[test]
fn install_and_remove_are_disjoint() {
    let desired = list(&["a", "b", "c", "a"]);
    let managed = list(&["b", "d", "e"]);
    let snapshot = vec![free("b"), free("d"), free("e")];
    let p = plan(&desired, &managed, &snapshot);
    assert_eq!(sorted(p.to_install.clone()), list(&["a", "c"]));
    assert_eq!(sorted(p.to_remove.clone()), list(&["d", "e"]));
    for n in &p.to_install {
        assert!(!p.to_remove.contains(n));
    }
}

#[test]
fn duplicate_desired_names_are_installed_once() {
    let p = plan(&list(&["git", "git", "vim", "git"]), &list(&[]), &vec![]);
    assert_eq!(p.to_install, list(&["git", "vim"]));
    assert!(p.install_step().is_some());
}

#[test]
fn settled_state_gives_empty_plan() {
    let p = plan(&list(&["vim", "git"]), &list(&["git", "vim"]), &vec![free("vim"), free("git")]);
    assert!(p.is_empty());
    assert!(p.install_step().is_none());
    assert!(p.remove_step().is_none());
}

#[test]
fn second_reconcile_is_empty() {
    let desired = list(&["vim", "git"]);
    let mut config = novarch::config::Config::from_parts("/srv/pkgs".to_string(), list(&["vim", "htop", "tree"]));
    let before = vec![free("vim"), free("htop"), pkg("tree", InstallReason::Explicit, &["x"], &[])];
    let first = plan(&desired, &config.packages, &before);
    assert_eq!(first.to_install, list(&["git"]));
    assert_eq!(first.to_remove, list(&["htop"]));
    config.track(&first.to_install);
    config.untrack(&first.to_remove);
    let after = vec![free("vim"), free("git"), pkg("tree", InstallReason::Explicit, &["x"], &[])];
    let second = plan(&desired, &config.packages, &after);
    assert!(second.is_empty());
}

#[test]
fn plan_commands_carry_the_names() {
    let p = plan(&list(&["vim", "git"]), &list(&["vim", "htop"]), &vec![free("vim"), free("htop")]);
    let install = p.install_step().unwrap();
    assert_eq!(install.program, "paru");
    assert_eq!(install.args, list(&["-S", "--needed", "--noconfirm", "--", "git"]));
    assert!(!install.elevated);
    let remove = p.remove_step().unwrap();
    assert_eq!(remove.program, "pacman");
    assert_eq!(remove.args, list(&["-Rns", "--noconfirm", "htop"]));
    assert!(remove.elevated);
}

#[test]
fn orphans_are_dependencies_nothing_needs() {
    let snapshot = vec![
        pkg("a", InstallReason::Depend, &[], &[]),
        pkg("b", InstallReason::Depend, &["x"], &[]),
        pkg("c", InstallReason::Depend, &[], &["y"]),
        pkg("d", InstallReason::Explicit, &[], &[]),
        pkg("e", InstallReason::Depend, &[], &[]),
    ];
    assert_eq!(select_orphans(&snapshot), list(&["a", "e"]));
    let c = orphan_cleanup(&snapshot).unwrap();
    assert_eq!(c.program, "pacman");
    assert_eq!(c.args, list(&["-Rns", "a", "e"]));
    assert!(c.elevated);
}

#[test]
fn no_orphans_no_cleanup() {
    let snapshot = vec![pkg("d", InstallReason::Explicit, &[], &[])];
    assert!(select_orphans(&snapshot).is_empty());
    assert!(orphan_cleanup(&snapshot).is_none());
}
