//! The plugin that suggests commands as they are typed.

use vstd::prelude::*;
use crate::command::DCommand;
use crate::component::{all_declared, declaration, declared, DependencyInfo, DependencyInstallable};
use crate::components::git::Git;
use crate::components::ohmyzsh::OhMyZsh;
use crate::components::zsh::Zsh;
use crate::dependency::{declarations, Dependency, DependencyView};
use crate::status::{DependencyError, InstallationStatus};
use crate::steps::{
    commands_of, git_clone, git_clone_command, install_step, install_with, look_at, looked_at,
    noted, status_of, step_of, whole_check, Next, Reply,
};
use crate::system::{OperatingSystem, SystemData};

verus! {

/// The suggestions plugin, and whether it is there.
#[derive(Debug, Clone, Copy)]
pub struct ZshAutoSuggestions {
    pub zsh_auto_suggestions_available: bool,
}

impl Default for ZshAutoSuggestions {
    fn default() -> (component: Self)
        ensures
            !component.zsh_auto_suggestions_available,
    {
        ZshAutoSuggestions { zsh_auto_suggestions_available: false }
    }
}

impl ZshAutoSuggestions {
    /// The component as it is before anything was checked: the same value
    /// at every call.
    pub fn singleton() -> (component: &'static Self)
        ensures
            !component.zsh_auto_suggestions_available,
    {
        &ZshAutoSuggestions { zsh_auto_suggestions_available: false }
    }

    /// What the component declares on an operating system.
    pub open spec fn declared_on(os: OperatingSystem) -> Option<DependencyView> {
        declared(&ZshAutoSuggestions { zsh_auto_suggestions_available: false }, os)
    }

    /// Where the repository is cloned to.
    pub open spec fn path(system: &SystemData) -> Seq<char> {
        system.home_dir@ + "/.oh-my-zsh/custom/plugins/zsh-autosuggestions"@
    }

    /// Where the repository is fetched from.
    pub open spec fn url() -> Seq<char> {
        "https://github.com/zsh-users/zsh-autosuggestions"@
    }
}

impl DependencyInfo for ZshAutoSuggestions {
    open spec fn spec_name(&self) -> Seq<char> {
        "zsh_auto_suggestions"@
    }

    open spec fn spec_prerequisites(&self, os: OperatingSystem) -> Option<Seq<DependencyView>> {
        all_declared(
            seq![
                Zsh::declared_on(os),
                OhMyZsh::declared_on(os),
                Git::declared_on(os),
            ],
        )
    }

    fn name(&self) -> (name: &'static str) {
        "zsh_auto_suggestions"
    }

    fn prerequisites(&self, os: OperatingSystem) -> (r: Result<Vec<Dependency>, DependencyError>) {
        let mut list: Vec<Dependency> = Vec::new();
        list.push(declaration(Zsh::singleton(), os)?);
        list.push(declaration(OhMyZsh::singleton(), os)?);
        list.push(declaration(Git::singleton(), os)?);
        assert(declarations(list@) =~= all_declared(
            seq![
                Zsh::declared_on(os),
                OhMyZsh::declared_on(os),
                Git::declared_on(os),
            ],
        )->0);
        Ok(list)
    }
}

impl DependencyInstallable for ZshAutoSuggestions {
    /// Looks for the clone among the plugins of Oh My Zsh.
    fn is_installed(&mut self, system: &SystemData, replies: &[Reply]) -> (r: Result<
        Next<InstallationStatus>,
        DependencyError,
    >)
        ensures
            step_of(r) == whole_check(looked_at(ZshAutoSuggestions::path(system), replies@, 0)),
            final(self).zsh_auto_suggestions_available == noted(
                looked_at(ZshAutoSuggestions::path(system), replies@, 0),
                old(self).zsh_auto_suggestions_available,
            ),
    {
        let path = system.home_path("/.oh-my-zsh/custom/plugins/zsh-autosuggestions");
        match look_at(path, replies, 0) {
            Err(e) => Err(e),
            Ok(Next::Ask(request)) => Ok(Next::Ask(request)),
            Ok(Next::Done(present)) => {
                self.zsh_auto_suggestions_available = present;
                Ok(Next::Done(status_of(present)))
            },
        }
    }

    /// Clones the repository among the plugins of Oh My Zsh, whatever the last
    /// check found.
    fn install(&mut self, system: &SystemData, replies: &[Reply]) -> (r: Result<
        Next<()>,
        DependencyError,
    >)
        ensures
            step_of(r) == install_step(
                false,
                Some(seq![git_clone(ZshAutoSuggestions::url(), ZshAutoSuggestions::path(system))]),
                replies@,
            ),
            final(self).zsh_auto_suggestions_available == (old(self).zsh_auto_suggestions_available
                || step_of(r) is Done),
    {
        let path = system.home_path("/.oh-my-zsh/custom/plugins/zsh-autosuggestions");
        let mut list: Vec<DCommand> = Vec::new();
        list.push(
            git_clone_command(
                "https://github.com/zsh-users/zsh-autosuggestions",
                path.as_str(),
            ),
        );
        assert(commands_of(list@) =~= seq![
            git_clone(ZshAutoSuggestions::url(), ZshAutoSuggestions::path(system)),
        ]);
        let step = match install_with(false, Some(list), replies) {
            Err(e) => {
                return Err(e);
            },
            Ok(step) => step,
        };
        if let Next::Done(()) = step {
            self.zsh_auto_suggestions_available = true;
        }
        Ok(step)
    }
}

} // verus!
