//! The plugin that colours commands as they are typed.

use vstd::prelude::*;
use crate::command::DCommand;
use crate::component::{all_declared, declaration, declared, DependencyInfo, DependencyInstallable};
use crate::components::git::Git;
use crate::components::ohmyzsh::OhMyZsh;
use crate::components::zsh::Zsh;
use crate::dependency::{declarations, Dependency, DependencyView};
use crate::status::{DependencyError, InstallationStatus};
use crate::steps::{
    commands_of, git_clone, git_clone_command, install_step, install_with, look_at, looked_at,
    noted, status_of, step_of, whole_check, Next, Reply,
};
use crate::system::{OperatingSystem, SystemData};

verus! {

/// The highlighting plugin, and whether it is there.
#[derive(Debug, Clone, Copy)]
pub struct ZshSyntaxHighlighting {
    pub zsh_syntax_highlighting_available: bool,
}

impl Default for ZshSyntaxHighlighting {
    fn default() -> (component: Self)
        ensures
            !component.zsh_syntax_highlighting_available,
    {
        ZshSyntaxHighlighting { zsh_syntax_highlighting_available: false }
    }
}

impl ZshSyntaxHighlighting {
    /// The component as it is before anything was checked: the same value
    /// at every call.
    pub fn singleton() -> (component: &'static Self)
        ensures
            !component.zsh_syntax_highlighting_available,
    {
        &ZshSyntaxHighlighting { zsh_syntax_highlighting_available: false }
    }

    /// What the component declares on an operating system.
    pub open spec fn declared_on(os: OperatingSystem) -> Option<DependencyView> {
        declared(&ZshSyntaxHighlighting { zsh_syntax_highlighting_available: false }, os)
    }

    /// Where the repository is cloned to.
    pub open spec fn path(system: &SystemData) -> Seq<char> {
        system.home_dir@ + "/.oh-my-zsh/custom/plugins/zsh-syntax-highlighting"@
    }

    /// Where the repository is fetched from.
    pub open spec fn url() -> Seq<char> {
        "https://github.com/zsh-users/zsh-syntax-highlighting.git"@
    }
}

impl DependencyInfo for ZshSyntaxHighlighting {
    open spec fn spec_name(&self) -> Seq<char> {
        "zsh_syntax_highlighting"@
    }

    open spec fn spec_prerequisites(&self, os: OperatingSystem) -> Option<Seq<DependencyView>> {
        all_declared(
            seq![
                Zsh::declared_on(os),
                OhMyZsh::declared_on(os),
                Git::declared_on(os),
            ],
        )
    }

    fn name(&self) -> (name: &'static str) {
        "zsh_syntax_highlighting"
    }

    fn prerequisites(&self, os: OperatingSystem) -> (r: Result<Vec<Dependency>, DependencyError>) {
        let mut list: Vec<Dependency> = Vec::new();
        list.push(declaration(Zsh::singleton(), os)?);
        list.push(declaration(OhMyZsh::singleton(), os)?);
        list.push(declaration(Git::singleton(), os)?);
        assert(declarations(list@) =~= all_declared(
            seq![
                Zsh::declared_on(os),
                OhMyZsh::declared_on(os),
                Git::declared_on(os),
            ],
        )->0);
        Ok(list)
    }
}

impl DependencyInstallable for ZshSyntaxHighlighting {
    /// Looks for the clone among the plugins of Oh My Zsh.
    fn is_installed(&mut self, system: &SystemData, replies: &[Reply]) -> (r: Result<
        Next<InstallationStatus>,
        DependencyError,
    >)
        ensures
            step_of(r) == whole_check(looked_at(ZshSyntaxHighlighting::path(system), replies@, 0)),
            final(self).zsh_syntax_highlighting_available == noted(
                looked_at(ZshSyntaxHighlighting::path(system), replies@, 0),
                old(self).zsh_syntax_highlighting_available,
            ),
    {
        let path = system.home_path("/.oh-my-zsh/custom/plugins/zsh-syntax-highlighting");
        match look_at(path, replies, 0) {
            Err(e) => Err(e),
            Ok(Next::Ask(request)) => Ok(Next::Ask(request)),
            Ok(Next::Done(present)) => {
                self.zsh_syntax_highlighting_available = present;
                Ok(Next::Done(status_of(present)))
            },
        }
    }

    /// Clones the repository among the plugins of Oh My Zsh, whatever the last
    /// check found.
    fn install(&mut self, system: &SystemData, replies: &[Reply]) -> (r: Result<
        Next<()>,
        DependencyError,
    >)
        ensures
            step_of(r) == install_step(
                false,
                Some(
                    seq![
                        git_clone(
                            ZshSyntaxHighlighting::url(),
                            ZshSyntaxHighlighting::path(system),
                        ),
                    ],
                ),
                replies@,
            ),
            final(self).zsh_syntax_highlighting_available == (old(
                self,
            ).zsh_syntax_highlighting_available || step_of(r) is Done),
    {
        let path = system.home_path("/.oh-my-zsh/custom/plugins/zsh-syntax-highlighting");
        let mut list: Vec<DCommand> = Vec::new();
        list.push(
            git_clone_command(
                "https://github.com/zsh-users/zsh-syntax-highlighting.git",
                path.as_str(),
            ),
        );
        assert(commands_of(list@) =~= seq![
            git_clone(ZshSyntaxHighlighting::url(), ZshSyntaxHighlighting::path(system)),
        ]);
        let step = match install_with(false, Some(list), replies) {
            Err(e) => {
                return Err(e);
            },
            Ok(step) => step,
        };
        if let Next::Done(()) = step {
            self.zsh_syntax_highlighting_available = true;
        }
        Ok(step)
    }
}

} // verus!
