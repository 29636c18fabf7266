use novarch::bootstrap::{initialize, repository_setup, InitStep, SetupAction};
use novarch::commands::{add_command, helper_setup, system_update, uninstall_command};

fn list(v: &[&str]) -> Vec<String> {
    v.iter().map(|x| x.to_string()).collect()
}

#[test]
fn configured_repositories_need_nothing() {
    let lines = list(&["[options]", "[multilib]", "Include = /etc/pacman.d/mirrorlist", "[chaotic-aur]"]);
    assert!(repository_setup(&lines).is_empty());
}

#[test]
fn missing_multilib_is_appended() {
    let r = repository_setup(&list(&["[options]", "[chaotic-aur]"]));
    assert_eq!(r.len(), 1);
    assert_eq!(
        r[0],
        SetupAction::AppendToPacmanConf { text: "[multilib]\nInclude = /etc/pacman.d/mirrorlist\n".to_string() }
    );
}

#[test]
fn missing_chaotic_runs_its_steps() {
    let r = repository_setup(&list(&["#[multilib]", "[multilib]"]));
    assert_eq!(r.len(), 9);
    match &r[3] {
        SetupAction::Run { command } => {
            assert_eq!(command.program, "pacman-key");
            assert_eq!(command.args, list(&["--recv-key", "3056513887B78AEB", "--keyserver", "keyserver.ubuntu.com"]));
            assert!(command.elevated);
        }
        other => panic!("unexpected step {:?}", other),
    }
    assert_eq!(
        r[7],
        SetupAction::AppendToPacmanConf { text: "[chaotic-aur]\nInclude = /etc/pacman.d/chaotic-mirrorlist\n".to_string() }
    );
}

#[test]
fn bare_system_needs_everything() {
    let r = repository_setup(&list(&[]));
    assert_eq!(r.len(), 10);
}

#[test]
fn first_run_phases() {
    let r = initialize(true);
    assert_eq!(
        r,
        vec![InitStep::SetUpStateFile, InitStep::ConfigureRepositories, InitStep::UpdateSystem, InitStep::ReconcilePackages]
    );
    let r = initialize(false);
    assert_eq!(r.len(), 6);
    match &r[1] {
        InitStep::Run { command } => {
            assert_eq!(command.program, "rustup");
            assert_eq!(command.args, list(&["default", "stable"]));
            assert!(!command.elevated);
        }
        other => panic!("unexpected step {:?}", other),
    }
}

#[test]
fn update_installs_missing_tools() {
    let all = system_update(false, false);
    let programs: Vec<&str> = all.iter().map(|c| c.program.as_str()).collect();
    assert_eq!(programs, vec!["pacman", "reflector", "pacman", "paru"]);
    assert_eq!(all[0].args, list(&["-S", "--noconfirm", "reflector"]));
    assert_eq!(all[2].args, list(&["-S", "--noconfirm", "paru"]));
    assert_eq!(all[3].args, list(&["-Syu", "--noconfirm"]));
    let some = system_update(true, true);
    assert_eq!(some.len(), 2);
    assert_eq!(some[0].args[7], "/etc/pacman.d/mirrorlist");
    assert!(helper_setup(true).is_empty());
    assert_eq!(helper_setup(false).len(), 1);
}

#[test]
fn user_commands() {
    let a = add_command(&list(&["vim", "git"]));
    assert_eq!(a.args, list(&["-S", "--needed", "--", "vim", "git"]));
    assert!(!a.elevated);
    let u = uninstall_command(&list(&["vim"]));
    assert_eq!(u.program, "pacman");
    assert_eq!(u.args, list(&["-Rns", "vim"]));
    assert!(u.elevated);
}
