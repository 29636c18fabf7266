//! One-time setup of the system: the repositories the packages come from,
//! and the order of the steps of a first run. Each step is guarded by a
//! check of whether it was already done, so a failed setup is simply run again.
use vstd::prelude::*;
use crate::commands::{elevated, fixed_view, unelevated, CommandLine, CommandView};
use crate::packages::{contains_name, names};

verus! {

/// A step of the repository setup.
#[derive(Debug, PartialEq, Eq)]
pub enum SetupAction {
    /// Run a command.
    Run { command: CommandLine },
    /// Append a section to the package manager's configuration file.
    AppendToPacmanConf { text: String },
}

/// A setup step as plain values.
pub enum SetupView {
    Run(CommandView),
    Append(Seq<char>),
}

impl View for SetupAction {
    type V = SetupView;

    open spec fn view(&self) -> SetupView {
        match self {
            SetupAction::Run { command } => SetupView::Run(command@),
            SetupAction::AppendToPacmanConf { text } => SetupView::Append(text@),
        }
    }
}

/// The views of a list of setup steps.
pub open spec fn setup_views(v: Seq<SetupAction>) -> Seq<SetupView> {
    v.map_values(|a: SetupAction| a@)
}

/// The header line of the multilib repository's section.
pub open spec fn multilib_header() -> Seq<char> {
    "[multilib]"@
}

/// The header line of the Chaotic-AUR repository's section.
pub open spec fn chaotic_header() -> Seq<char> {
    "[chaotic-aur]"@
}

/// The section that enables the multilib repository.
pub open spec fn multilib_section() -> Seq<char> {
    "[multilib]\nInclude = /etc/pacman.d/mirrorlist\n"@
}

/// The section that enables the Chaotic-AUR repository.
pub open spec fn chaotic_section() -> Seq<char> {
    "[chaotic-aur]\nInclude = /etc/pacman.d/chaotic-mirrorlist\n"@
}

/// The steps that enable the Chaotic-AUR repository: refresh, set up the
/// keyring, trust the repository's key, install its keyring and mirror list,
/// add its section, and upgrade.
pub open spec fn chaotic_steps() -> Seq<SetupView> {
    seq![
        SetupView::Run(fixed_view("pacman"@, seq!["-Syu"@], true)),
        SetupView::Run(fixed_view("pacman-key"@, seq!["--init"@], true)),
        SetupView::Run(
            fixed_view("pacman"@, seq!["-Sy"@, "--noconfirm"@, "archlinux-keyring"@], true),
        ),
        SetupView::Run(
            fixed_view(
                "pacman-key"@,
                seq![
                    "--recv-key"@,
                    "3056513887B78AEB"@,
                    "--keyserver"@,
                    "keyserver.ubuntu.com"@,
                ],
                true,
            ),
        ),
        SetupView::Run(
            fixed_view("pacman-key"@, seq!["--lsign-key"@, "3056513887B78AEB"@], true),
        ),
        SetupView::Run(
            fixed_view(
                "pacman"@,
                seq![
                    "-U"@,
                    "--noconfirm"@,
                    "https://cdn-mirror.chaotic.cx/chaotic-aur/chaotic-keyring.pkg.tar.zst"@,
                ],
                true,
            ),
        ),
        SetupView::Run(
            fixed_view(
                "pacman"@,
                seq![
                    "-U"@,
                    "--noconfirm"@,
                    "https://cdn-mirror.chaotic.cx/chaotic-aur/chaotic-mirrorlist.pkg.tar.zst"@,
                ],
                true,
            ),
        ),
        SetupView::Append(chaotic_section()),
        SetupView::Run(fixed_view("pacman"@, seq!["-Syu"@, "--noconfirm"@], true)),
    ]
}

/// The repository setup still to do, given which sections are already there.
pub open spec fn repository_steps(multilib_enabled: bool, chaotic_enabled: bool) -> Seq<SetupView> {
    let first = if multilib_enabled {
        Seq::empty()
    } else {
        seq![SetupView::Append(multilib_section())]
    };
    let second = if chaotic_enabled {
        Seq::empty()
    } else {
        chaotic_steps()
    };
    first + second
}

fn chaotic_actions() -> (r: Vec<SetupAction>)
    ensures
        setup_views(r@) == chaotic_steps(),
{
    let mut r: Vec<SetupAction> = Vec::new();
    let c = elevated("pacman", &["-Syu"]);
    assert(c@.args =~= seq!["-Syu"@]);
    r.push(SetupAction::Run { command: c });
    let c = elevated("pacman-key", &["--init"]);
    assert(c@.args =~= seq!["--init"@]);
    r.push(SetupAction::Run { command: c });
    let c = elevated("pacman", &["-Sy", "--noconfirm", "archlinux-keyring"]);
    assert(c@.args =~= seq!["-Sy"@, "--noconfirm"@, "archlinux-keyring"@]);
    r.push(SetupAction::Run { command: c });
    let c = elevated(
        "pacman-key",
        &["--recv-key", "3056513887B78AEB", "--keyserver", "keyserver.ubuntu.com"],
    );
    assert(c@.args =~= seq![
        "--recv-key"@,
        "3056513887B78AEB"@,
        "--keyserver"@,
        "keyserver.ubuntu.com"@,
    ]);
    r.push(SetupAction::Run { command: c });
    let c = elevated("pacman-key", &["--lsign-key", "3056513887B78AEB"]);
    assert(c@.args =~= seq!["--lsign-key"@, "3056513887B78AEB"@]);
    r.push(SetupAction::Run { command: c });
    let c = elevated(
        "pacman",
        &["-U", "--noconfirm", "https://cdn-mirror.chaotic.cx/chaotic-aur/chaotic-keyring.pkg.tar.zst"],
    );
    assert(c@.args =~= seq![
        "-U"@,
        "--noconfirm"@,
        "https://cdn-mirror.chaotic.cx/chaotic-aur/chaotic-keyring.pkg.tar.zst"@,
    ]);
    r.push(SetupAction::Run { command: c });
    let c = elevated(
        "pacman",
        &[
            "-U",
            "--noconfirm",
            "https://cdn-mirror.chaotic.cx/chaotic-aur/chaotic-mirrorlist.pkg.tar.zst",
        ],
    );
    assert(c@.args =~= seq![
        "-U"@,
        "--noconfirm"@,
        "https://cdn-mirror.chaotic.cx/chaotic-aur/chaotic-mirrorlist.pkg.tar.zst"@,
    ]);
    r.push(SetupAction::Run { command: c });
    r.push(
        SetupAction::AppendToPacmanConf {
            text: "[chaotic-aur]\nInclude = /etc/pacman.d/chaotic-mirrorlist\n".to_owned(),
        },
    );
    let c = elevated("pacman", &["-Syu", "--noconfirm"]);
    assert(c@.args =~= seq!["-Syu"@, "--noconfirm"@]);
    r.push(SetupAction::Run { command: c });
    assert(setup_views(r@) =~= chaotic_steps());
    r
}

/// The repository setup still to do, given the lines of the package
/// manager's configuration file: the multilib section if its header line is
/// missing, and the Chaotic-AUR steps if its header line is missing.
pub fn repository_setup(conf_lines: &Vec<String>) -> (r: Vec<SetupAction>)
    ensures
        setup_views(r@) == repository_steps(
            names(conf_lines@).contains(multilib_header()),
            names(conf_lines@).contains(chaotic_header()),
        ),
{
    let multilib = "[multilib]".to_owned();
    let chaotic = "[chaotic-aur]".to_owned();
    let multilib_enabled = contains_name(conf_lines, &multilib);
    let chaotic_enabled = contains_name(conf_lines, &chaotic);
    let mut r: Vec<SetupAction> = Vec::new();
    if !multilib_enabled {
        r.push(
            SetupAction::AppendToPacmanConf {
                text: "[multilib]\nInclude = /etc/pacman.d/mirrorlist\n".to_owned(),
            },
        );
    }
    let ghost head = r@;
    assert(setup_views(head) =~= if multilib_enabled {
        Seq::empty()
    } else {
        seq![SetupView::Append(multilib_section())]
    });
    if !chaotic_enabled {
        let mut rest = chaotic_actions();
        let ghost tail = rest@;
        r.append(&mut rest);
        assert(r@ =~= head + tail);
        assert(setup_views(head + tail) =~= setup_views(head) + setup_views(tail));
    } else {
        assert(setup_views(r@) =~= setup_views(head) + Seq::empty());
    }
    r
}

/// A phase of a first run.
#[derive(Debug, PartialEq, Eq)]
pub enum InitStep {
    /// Run a command.
    Run { command: CommandLine },
    /// Create or update the persisted document, asking for the folder.
    SetUpStateFile,
    /// Carry out the repository setup.
    ConfigureRepositories,
    /// Carry out a system update.
    UpdateSystem,
    /// Install the AUR helper if needed, then reconcile the packages.
    ReconcilePackages,
}

/// A phase of a first run as plain values.
pub enum InitView {
    Run(CommandView),
    SetUpStateFile,
    ConfigureRepositories,
    UpdateSystem,
    ReconcilePackages,
}

impl View for InitStep {
    type V = InitView;

    open spec fn view(&self) -> InitView {
        match self {
            InitStep::Run { command } => InitView::Run(command@),
            InitStep::SetUpStateFile => InitView::SetUpStateFile,
            InitStep::ConfigureRepositories => InitView::ConfigureRepositories,
            InitStep::UpdateSystem => InitView::UpdateSystem,
            InitStep::ReconcilePackages => InitView::ReconcilePackages,
        }
    }
}

/// The views of a list of phases.
pub open spec fn init_views(v: Seq<InitStep>) -> Seq<InitView> {
    v.map_values(|s: InitStep| s@)
}

/// The phases of a first run: the Rust toolchain the AUR helper builds with,
/// if missing; then the persisted document, the repositories, a system
/// update, and the packages.
pub open spec fn init_steps(rustup_installed: bool) -> Seq<InitView> {
    let toolchain = if rustup_installed {
        Seq::empty()
    } else {
        seq![
            InitView::Run(fixed_view("pacman"@, seq!["-S"@, "--noconfirm"@, "rustup"@], true)),
            InitView::Run(fixed_view("rustup"@, seq!["default"@, "stable"@], false)),
        ]
    };
    toolchain + seq![
        InitView::SetUpStateFile,
        InitView::ConfigureRepositories,
        InitView::UpdateSystem,
        InitView::ReconcilePackages,
    ]
}

/// The phases of a first run, in order.
pub fn initialize(rustup_installed: bool) -> (r: Vec<InitStep>)
    ensures
        init_views(r@) == init_steps(rustup_installed),
{
    let mut r: Vec<InitStep> = Vec::new();
    if !rustup_installed {
        let install = elevated("pacman", &["-S", "--noconfirm", "rustup"]);
        assert(install@.args =~= seq!["-S"@, "--noconfirm"@, "rustup"@]);
        r.push(InitStep::Run { command: install });
        let default = unelevated("rustup", &["default", "stable"]);
        assert(default@.args =~= seq!["default"@, "stable"@]);
        r.push(InitStep::Run { command: default });
    }
    r.push(InitStep::SetUpStateFile);
    r.push(InitStep::ConfigureRepositories);
    r.push(InitStep::UpdateSystem);
    r.push(InitStep::ReconcilePackages);
    assert(init_views(r@) =~= init_steps(rustup_installed));
    r
}

} // verus!
