//! The external commands this tool runs, as structured argument lists.
use vstd::prelude::*;
use crate::packages::{lemma_names_push, names, orphan_names, select_orphans, PackageInfo};

verus! {

/// A command line: the program, its arguments, and whether it runs with
/// elevated privileges.
#[derive(Debug, Clone, PartialEq, Eq)]
pub struct CommandLine {
    pub program: String,
    pub args: Vec<String>,
    pub elevated: bool,
}

/// A command line as plain values.
pub struct CommandView {
    pub program: Seq<char>,
    pub args: Seq<Seq<char>>,
    pub elevated: bool,
}

impl View for CommandLine {
    type V = CommandView;

    open spec fn view(&self) -> CommandView {
        CommandView { program: self.program@, args: names(self.args@), elevated: self.elevated }
    }
}

/// The views of a list of string literals.
pub open spec fn words(fixed: Seq<&str>) -> Seq<Seq<char>> {
    fixed.map_values(|w: &str| w@)
}

fn make(program: &str, fixed: &[&str], packages: &Vec<String>, elevated: bool) -> (c: CommandLine)
    ensures
        c@ == (CommandView {
            program: program@,
            args: words(fixed@) + names(packages@),
            elevated,
        }),
{
    let mut args: Vec<String> = Vec::new();
    let mut i: usize = 0;
    while i < fixed.len()
        invariant
            i <= fixed@.len(),
            names(args@) == words(fixed@.subrange(0, i as int)),
        decreases fixed.len() - i,
    {
        let w = fixed[i].to_owned();
        proof {
            lemma_names_push(args@, w);
        }
        args.push(w);
        assert(words(fixed@.subrange(0, i + 1)) =~= words(fixed@.subrange(0, i as int)).push(fixed@[i as int]@));
        i = i + 1;
    }
    assert(fixed@.subrange(0, fixed@.len() as int) =~= fixed@);
    let ghost head = names(args@);
    let mut j: usize = 0;
    while j < packages.len()
        invariant
            j <= packages.len(),
            names(args@) == head + names(packages@.subrange(0, j as int)),
        decreases packages.len() - j,
    {
        proof {
            crate::packages::lemma_names_prefix(packages@, j as int);
            lemma_names_push(args@, packages@[j as int]);
        }
        args.push(packages[j].clone());
        assert(names(args@) =~= head + names(packages@.subrange(0, j + 1)));
        j = j + 1;
    }
    proof {
        crate::packages::lemma_names_full(packages@);
    }
    CommandLine { program: program.to_owned(), args, elevated }
}

/// Installs missing packages from the repositories and the AUR, asking nothing.
pub open spec fn install_view(packages: Seq<Seq<char>>) -> CommandView {
    CommandView {
        program: "paru"@,
        args: seq!["-S"@, "--needed"@, "--noconfirm"@, "--"@] + packages,
        elevated: false,
    }
}

/// The command that installs `packages` without asking.
pub fn install_command(packages: &Vec<String>) -> (c: CommandLine)
    ensures
        c@ == install_view(names(packages@)),
{
    let c = make("paru", &["-S", "--needed", "--noconfirm", "--"], packages, false);
    assert(c@.args =~= install_view(names(packages@)).args);
    c
}

/// A command view made of literal words only.
pub open spec fn fixed_view(program: Seq<char>, args: Seq<Seq<char>>, elevated: bool) -> CommandView {
    CommandView { program, args, elevated }
}

/// Removes packages together with the dependencies nothing else needs, asking nothing.
pub open spec fn remove_view(packages: Seq<Seq<char>>) -> CommandView {
    fixed_view("pacman"@, seq!["-Rns"@, "--noconfirm"@] + packages, true)
}

/// Installs packages named by the user; the package manager may ask questions.
pub open spec fn add_view(packages: Seq<Seq<char>>) -> CommandView {
    fixed_view("paru"@, seq!["-S"@, "--needed"@, "--"@] + packages, false)
}

/// Removes packages named by the user; the package manager may ask questions.
pub open spec fn uninstall_view(packages: Seq<Seq<char>>) -> CommandView {
    fixed_view("pacman"@, seq!["-Rns"@] + packages, true)
}

/// The command that removes `packages` without asking.
pub fn remove_command(packages: &Vec<String>) -> (c: CommandLine)
    ensures
        c@ == remove_view(names(packages@)),
{
    let c = make("pacman", &["-Rns", "--noconfirm"], packages, true);
    assert(c@.args =~= remove_view(names(packages@)).args);
    c
}

/// The command that installs packages the user names.
pub fn add_command(packages: &Vec<String>) -> (c: CommandLine)
    ensures
        c@ == add_view(names(packages@)),
{
    let c = make("paru", &["-S", "--needed", "--"], packages, false);
    assert(c@.args =~= add_view(names(packages@)).args);
    c
}

/// The command that removes packages the user names.
pub fn uninstall_command(packages: &Vec<String>) -> (c: CommandLine)
    ensures
        c@ == uninstall_view(names(packages@)),
{
    let c = make("pacman", &["-Rns"], packages, true);
    assert(c@.args =~= uninstall_view(names(packages@)).args);
    c
}

/// A command of literal words that runs with elevated privileges.
pub fn elevated(program: &str, args: &[&str]) -> (c: CommandLine)
    ensures
        c@ == fixed_view(program@, words(args@), true),
{
    literal(program, args, true)
}

/// A command of literal words that runs with the user's own privileges.
pub fn unelevated(program: &str, args: &[&str]) -> (c: CommandLine)
    ensures
        c@ == fixed_view(program@, words(args@), false),
{
    literal(program, args, false)
}

fn literal(program: &str, args: &[&str], elevated: bool) -> (c: CommandLine)
    ensures
        c@ == fixed_view(program@, words(args@), elevated),
{
    let none: Vec<String> = Vec::new();
    let c = make(program, args, &none, elevated);
    assert(c@.args =~= words(args@));
    c
}

/// The views of a list of command lines.
pub open spec fn command_views(v: Seq<CommandLine>) -> Seq<CommandView> {
    v.map_values(|c: CommandLine| c@)
}

/// Installs a missing helper tool from the repositories.
pub open spec fn tool_view(tool: Seq<char>) -> CommandView {
    fixed_view("pacman"@, seq!["-S"@, "--noconfirm"@, tool], true)
}

/// Refreshes the mirror list with the ten fastest recent HTTPS mirrors.
pub open spec fn mirror_refresh_view() -> CommandView {
    fixed_view(
        "reflector"@,
        seq![
            "--latest"@,
            "10"@,
            "--protocol"@,
            "https"@,
            "--sort"@,
            "rate"@,
            "--save"@,
            "/etc/pacman.d/mirrorlist"@,
        ],
        true,
    )
}

/// Upgrades every package, AUR ones included.
pub open spec fn upgrade_view() -> CommandView {
    fixed_view("paru"@, seq!["-Syu"@, "--noconfirm"@], false)
}

/// The command that installs the AUR helper, when it is missing.
pub open spec fn helper_setup_views(paru_installed: bool) -> Seq<CommandView> {
    if paru_installed {
        Seq::empty()
    } else {
        seq![tool_view("paru"@)]
    }
}

/// The commands of a system update: the mirror tool if missing, a mirror
/// refresh, the AUR helper if missing, and a full upgrade.
pub open spec fn update_views(reflector_installed: bool, paru_installed: bool) -> Seq<CommandView> {
    let first = if reflector_installed {
        Seq::empty()
    } else {
        seq![tool_view("reflector"@)]
    };
    first + seq![mirror_refresh_view()] + helper_setup_views(paru_installed) + seq![upgrade_view()]
}

/// Installs the AUR helper when it is missing; nothing otherwise.
pub fn helper_setup(paru_installed: bool) -> (r: Vec<CommandLine>)
    ensures
        command_views(r@) == helper_setup_views(paru_installed),
{
    let mut r: Vec<CommandLine> = Vec::new();
    if !paru_installed {
        r.push(literal("pacman", &["-S", "--noconfirm", "paru"], true));
    }
    proof {
        if !paru_installed {
            assert(words(seq!["-S", "--noconfirm", "paru"]) =~= tool_view("paru"@).args);
        }
    }
    assert(command_views(r@) =~= helper_setup_views(paru_installed));
    r
}

/// The commands of a system update, in order.
pub fn system_update(reflector_installed: bool, paru_installed: bool) -> (r: Vec<CommandLine>)
    ensures
        command_views(r@) == update_views(reflector_installed, paru_installed),
{
    let mut r: Vec<CommandLine> = Vec::new();
    if !reflector_installed {
        let tool = literal("pacman", &["-S", "--noconfirm", "reflector"], true);
        assert(tool@.args =~= tool_view("reflector"@).args);
        r.push(tool);
    }
    let ghost head = r@;
    let refresh = literal(
        "reflector",
        &[
            "--latest",
            "10",
            "--protocol",
            "https",
            "--sort",
            "rate",
            "--save",
            "/etc/pacman.d/mirrorlist",
        ],
        true,
    );
    assert(refresh@.args =~= mirror_refresh_view().args);
    r.push(refresh);
    let mut helper = helper_setup(paru_installed);
    let ghost mid = r@;
    let ghost helper_seq = helper@;
    r.append(&mut helper);
    let upgrade = literal("paru", &["-Syu", "--noconfirm"], false);
    assert(upgrade@.args =~= upgrade_view().args);
    r.push(upgrade);
    proof {
        assert(r@ =~= mid + helper_seq + seq![r@.last()]);
        assert(command_views(mid + helper_seq + seq![r@.last()]) =~= command_views(mid)
            + command_views(helper_seq) + command_views(seq![r@.last()]));
        assert(command_views(mid) =~= command_views(head) + seq![mirror_refresh_view()]);
        assert(command_views(head) =~= if reflector_installed {
            Seq::empty()
        } else {
            seq![tool_view("reflector"@)]
        });
        assert(command_views(seq![r@.last()]) =~= seq![upgrade_view()]);
    }
    r
}

/// The command that removes the orphans of the snapshot; none when there are none.
pub fn orphan_cleanup(snapshot: &Vec<PackageInfo>) -> (c: Option<CommandLine>)
    ensures
        match c {
            None => orphan_names(snapshot@).len() == 0,
            Some(c) => orphan_names(snapshot@).len() > 0 && c@ == uninstall_view(orphan_names(snapshot@)),
        },
{
    let orphans = select_orphans(snapshot);
    if orphans.len() == 0 {
        None
    } else {
        Some(uninstall_command(&orphans))
    }
}

} // verus!
