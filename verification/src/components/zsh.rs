//! The Z shell, as a program and as the user's shell.

use vstd::prelude::*;
use crate::command::{plain, slices, AsUser, DCommand, DCommandView};
use crate::component::{all_declared, declaration, declared, DependencyInfo, DependencyInstallable};
use crate::components::git::Git;
use crate::components::package_cache_refresh::PackageCacheRefresh;
use crate::components::tmux::Tmux;
use crate::dependency::{declarations, Dependency, DependencyView};
use crate::status::{DependencyError, InstallationStatus};
use crate::steps::{
    answer_to, answered, apt_install, apt_install_command, commands_of, dnf_install,
    dnf_install_command, in_order, output_of, probe_with, probed, ran, run_in_order, step_of,
    which, which_command, Next, Reply, Step,
};
use crate::system::{OperatingSystem, SystemData};
use crate::text::{contains, occurs_in};

verus! {

/// The Z shell, and what the last check found of it.
#[derive(Debug, Clone, Copy)]
pub struct Zsh {
    pub zsh_base_installed: bool,
    pub zsh_chsh: bool,
}

impl Default for Zsh {
    fn default() -> (component: Self)
        ensures
            !component.zsh_base_installed,
            !component.zsh_chsh,
    {
        Zsh { zsh_base_installed: false, zsh_chsh: false }
    }
}

impl Zsh {
    /// The component as it is before anything was checked: the same value
    /// at every call.
    pub fn singleton() -> (component: &'static Self)
        ensures
            !component.zsh_base_installed,
            !component.zsh_chsh,
    {
        &Zsh { zsh_base_installed: false, zsh_chsh: false }
    }

    /// The component as it is before anything was checked.
    pub fn new() -> (component: Self)
        ensures
            !component.zsh_base_installed,
            !component.zsh_chsh,
    {
        Zsh { zsh_base_installed: false, zsh_chsh: false }
    }

    /// What the component declares on an operating system.
    pub open spec fn declared_on(os: OperatingSystem) -> Option<DependencyView> {
        declared(&Zsh { zsh_base_installed: false, zsh_chsh: false }, os)
    }

    /// The command that prints the user's shell.
    pub open spec fn shell_probe() -> DCommandView {
        plain("echo"@, seq!["$SHELL"@])
    }

    /// The status of the shell, given whether the program was found and
    /// whether the user's shell could be printed.
    pub open spec fn status(found: bool, printed: bool) -> InstallationStatus {
        if !found {
            InstallationStatus::NotInstalled
        } else if printed {
            InstallationStatus::FullyInstalled
        } else {
            InstallationStatus::PartialInstall
        }
    }

    /// The step of the check, which looks for `zsh` on the search path and
    /// then has the user's shell printed.
    pub open spec fn checked(replies: Seq<Reply>) -> Step<InstallationStatus> {
        match probed(which("zsh"@), replies) {
            Step::Ask(request) => Step::Ask(request),
            Step::Failed(e) => Step::Failed(e),
            Step::Done(found) => match answered(Zsh::shell_probe(), replies, 1) {
                Step::Ask(request) => Step::Ask(request),
                Step::Failed(e) => Step::Failed(e),
                Step::Done(shell) => Step::Done(Zsh::status(found, shell.success)),
            },
        }
    }

    /// The command that installs the program on an operating system.
    pub open spec fn program_command(os: OperatingSystem) -> Option<DCommandView> {
        if os is Ubuntu1804 || os is Ubuntu2004 || os is Ubuntu2204 || os is PopOS2104 {
            Some(apt_install("zsh"@))
        } else if os is Fedora38 {
            Some(DCommandView { user: AsUser::DoNothing, ..dnf_install("zsh"@) })
        } else {
            None
        }
    }

    /// The command that makes the Z shell the user's shell.
    pub open spec fn shell_command() -> DCommandView {
        DCommandView {
            cmd: "chsh"@,
            args: seq!["-s"@, "/usr/bin/zsh"@],
            user: AsUser::DoNothing,
            live_print: false,
        }
    }

    /// The commands of an installation, given what the last check noted:
    /// the program is installed where it was not found, and then the user's
    /// shell is changed where it was not the Z shell. Nothing where the
    /// program is missing and the operating system has no command for it.
    pub open spec fn plan(self, os: OperatingSystem) -> Option<Seq<DCommandView>> {
        let change = if self.zsh_chsh {
            Seq::empty()
        } else {
            seq![Zsh::shell_command()]
        };
        if self.zsh_base_installed {
            Some(change)
        } else {
            match Zsh::program_command(os) {
                Some(command) => Some(seq![command] + change),
                None => None,
            }
        }
    }

    /// The step of an installation.
    pub open spec fn installed(self, os: OperatingSystem, replies: Seq<Reply>) -> Step<()> {
        match self.plan(os) {
            Some(commands) => in_order(commands, replies),
            None => Step::Failed(DependencyError::UnsupportedOperatingSystem),
        }
    }
}

impl DependencyInfo for Zsh {
    open spec fn spec_name(&self) -> Seq<char> {
        "zsh"@
    }

    open spec fn spec_prerequisites(&self, os: OperatingSystem) -> Option<Seq<DependencyView>> {
        all_declared(
            seq![
                Tmux::declared_on(os),
                Git::declared_on(os),
                PackageCacheRefresh::declared_on(os),
            ],
        )
    }

    fn name(&self) -> (name: &'static str) {
        "zsh"
    }

    fn prerequisites(&self, os: OperatingSystem) -> (r: Result<Vec<Dependency>, DependencyError>) {
        let mut list: Vec<Dependency> = Vec::new();
        list.push(declaration(Tmux::singleton(), os)?);
        list.push(declaration(Git::singleton(), os)?);
        list.push(declaration(PackageCacheRefresh::singleton(), os)?);
        assert(declarations(list@) =~= all_declared(
            seq![
                Tmux::declared_on(os),
                Git::declared_on(os),
                PackageCacheRefresh::declared_on(os),
            ],
        )->0);
        Ok(list)
    }
}

impl DependencyInstallable for Zsh {
    /// Looks for `zsh` on the search path, and in the user's shell as it is
    /// printed. Each is noted as soon as its reply is there.
    fn is_installed(&mut self, system: &SystemData, replies: &[Reply]) -> (r: Result<
        Next<InstallationStatus>,
        DependencyError,
    >)
        ensures
            step_of(r) == Zsh::checked(replies@),
            final(self).zsh_base_installed == (match probed(which("zsh"@), replies@) {
                Step::Done(found) => found,
                _ => old(self).zsh_base_installed,
            }),
            final(self).zsh_chsh == (match (
                probed(which("zsh"@), replies@),
                answered(Zsh::shell_probe(), replies@, 1),
            ) {
                (Step::Done(_), Step::Done(shell)) => shell.success && occurs_in(
                    "zsh"@,
                    shell.stdout@,
                ),
                _ => old(self).zsh_chsh,
            }),
    {
        let found = match probe_with(which_command("zsh"), replies) {
            Err(e) => {
                return Err(e);
            },
            Ok(Next::Ask(request)) => {
                return Ok(Next::Ask(request));
            },
            Ok(Next::Done(found)) => found,
        };
        self.zsh_base_installed = found;
        let probe = DCommand::new("echo", &["$SHELL"]);
        assert(slices((["$SHELL"])@) =~= seq!["$SHELL"@]);
        let shell = match answer_to(probe, replies, 1) {
            Err(e) => {
                return Err(e);
            },
            Ok(Next::Ask(request)) => {
                return Ok(Next::Ask(request));
            },
            Ok(Next::Done(output)) => output,
        };
        self.zsh_chsh = shell.success && contains(shell.stdout.as_str(), "zsh");
        if !found {
            Ok(Next::Done(InstallationStatus::NotInstalled))
        } else if shell.success {
            Ok(Next::Done(InstallationStatus::FullyInstalled))
        } else {
            Ok(Next::Done(InstallationStatus::PartialInstall))
        }
    }

    /// Installs the program where the last check did not find it, and then
    /// makes it the user's shell where it was not. While a command is still
    /// asked for, what the check noted stays; once the installation is done
    /// or has given up, each part whose command ran is noted as there.
    fn install(&mut self, system: &SystemData, replies: &[Reply]) -> (r: Result<
        Next<()>,
        DependencyError,
    >)
        ensures
            step_of(r) == old(self).installed(system.operating_system, replies@),
            final(self).zsh_base_installed == (old(self).zsh_base_installed || (
            !(step_of(r) is Ask) && old(self).plan(system.operating_system) is Some
                && replies@.len() > 0 && ran(replies@[0]))),
            final(self).zsh_chsh == (old(self).zsh_chsh || step_of(r) is Done),
    {
        let os = system.operating_system;
        let ghost before = *self;
        let mut list: Vec<DCommand> = Vec::new();
        if !self.zsh_base_installed {
            if os.is_debian_like() {
                list.push(apt_install_command("zsh"));
            } else if matches!(os, OperatingSystem::Fedora38) {
                list.push(dnf_install_command("zsh").user(AsUser::DoNothing));
            } else {
                return Err(DependencyError::UnsupportedOperatingSystem);
            }
        }
        if !self.zsh_chsh {
            let change = DCommand::new("chsh", &["-s", "/usr/bin/zsh"]).user(AsUser::DoNothing);
            assert(slices((["-s", "/usr/bin/zsh"])@) =~= seq!["-s"@, "/usr/bin/zsh"@]);
            list.push(change);
        }
        assert(commands_of(list@) =~= before.plan(os)->0);
        let r = run_in_order(&list, replies);
        match r {
            Ok(Next::Ask(request)) => Ok(Next::Ask(request)),
            Ok(Next::Done(())) => {
                self.zsh_base_installed = true;
                self.zsh_chsh = true;
                Ok(Next::Done(()))
            },
            Err(e) => {
                if !self.zsh_base_installed && replies.len() > 0 {
                    if output_of(&replies[0]).is_ok() {
                        self.zsh_base_installed = true;
                    }
                }
                Err(e)
            },
        }
    }
}

} // verus!
