//! Oh My Zsh, the framework for the Z shell's configuration.

use vstd::prelude::*;
use crate::command::DCommand;
use crate::component::{all_declared, declaration, declared, DependencyInfo, DependencyInstallable};
use crate::components::git::Git;
use crate::components::zsh::Zsh;
use crate::dependency::{declarations, Dependency, DependencyView};
use crate::status::{DependencyError, InstallationStatus};
use crate::steps::{
    commands_of, git_clone, git_clone_command, install_step, install_with, look_at, looked_at,
    noted, status_of, step_of, whole_check, Next, Reply,
};
use crate::system::{OperatingSystem, SystemData};

verus! {

/// Oh My Zsh, and whether the last check found it.
#[derive(Debug, Clone, Copy)]
pub struct OhMyZsh {
    pub ohmyzsh_installed: bool,
}

impl Default for OhMyZsh {
    fn default() -> (component: Self)
        ensures
            !component.ohmyzsh_installed,
    {
        OhMyZsh { ohmyzsh_installed: false }
    }
}

impl OhMyZsh {
    /// The component as it is before anything was checked: the same value
    /// at every call.
    pub fn singleton() -> (component: &'static Self)
        ensures
            !component.ohmyzsh_installed,
    {
        &OhMyZsh { ohmyzsh_installed: false }
    }

    /// What the component declares on an operating system.
    pub open spec fn declared_on(os: OperatingSystem) -> Option<DependencyView> {
        declared(&OhMyZsh { ohmyzsh_installed: false }, os)
    }

    /// Where the repository is cloned to.
    pub open spec fn path(system: &SystemData) -> Seq<char> {
        system.home_dir@ + "/.oh-my-zsh"@
    }

    /// Where the repository is fetched from.
    pub open spec fn url() -> Seq<char> {
        "https://github.com/ohmyzsh/ohmyzsh"@
    }
}

impl DependencyInfo for OhMyZsh {
    open spec fn spec_name(&self) -> Seq<char> {
        "oh-my-zsh"@
    }

    open spec fn spec_prerequisites(&self, os: OperatingSystem) -> Option<Seq<DependencyView>> {
        all_declared(
            seq![
                Git::declared_on(os),
                Zsh::declared_on(os),
            ],
        )
    }

    fn name(&self) -> (name: &'static str) {
        "oh-my-zsh"
    }

    fn prerequisites(&self, os: OperatingSystem) -> (r: Result<Vec<Dependency>, DependencyError>) {
        let mut list: Vec<Dependency> = Vec::new();
        list.push(declaration(Git::singleton(), os)?);
        list.push(declaration(Zsh::singleton(), os)?);
        assert(declarations(list@) =~= all_declared(
            seq![
                Git::declared_on(os),
                Zsh::declared_on(os),
            ],
        )->0);
        Ok(list)
    }
}

impl DependencyInstallable for OhMyZsh {
    /// Looks for the clone in the home directory.
    fn is_installed(&mut self, system: &SystemData, replies: &[Reply]) -> (r: Result<
        Next<InstallationStatus>,
        DependencyError,
    >)
        ensures
            step_of(r) == whole_check(looked_at(OhMyZsh::path(system), replies@, 0)),
            final(self).ohmyzsh_installed == noted(
                looked_at(OhMyZsh::path(system), replies@, 0),
                old(self).ohmyzsh_installed,
            ),
    {
        match look_at(system.home_path("/.oh-my-zsh"), replies, 0) {
            Err(e) => Err(e),
            Ok(Next::Ask(request)) => Ok(Next::Ask(request)),
            Ok(Next::Done(present)) => {
                self.ohmyzsh_installed = present;
                Ok(Next::Done(status_of(present)))
            },
        }
    }

    /// Clones the repository into the home directory, unless the last check found
    /// the clone.
    fn install(&mut self, system: &SystemData, replies: &[Reply]) -> (r: Result<
        Next<()>,
        DependencyError,
    >)
        ensures
            step_of(r) == install_step(
                old(self).ohmyzsh_installed,
                Some(seq![git_clone(OhMyZsh::url(), OhMyZsh::path(system))]),
                replies@,
            ),
            final(self).ohmyzsh_installed == (old(self).ohmyzsh_installed
                || step_of(r) is Done),
    {
        let path = system.home_path("/.oh-my-zsh");
        let mut list: Vec<DCommand> = Vec::new();
        list.push(git_clone_command("https://github.com/ohmyzsh/ohmyzsh", path.as_str()));
        assert(commands_of(list@) =~= seq![git_clone(OhMyZsh::url(), OhMyZsh::path(system))]);
        let step = match install_with(self.ohmyzsh_installed, Some(list), replies) {
            Err(e) => {
                return Err(e);
            },
            Ok(step) => step,
        };
        if let Next::Done(()) = step {
            self.ohmyzsh_installed = true;
        }
        Ok(step)
    }
}

} // verus!
