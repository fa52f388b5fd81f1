//! tokei, which counts lines of code.

use vstd::prelude::*;
use crate::command::{plain, slices, DCommand, DCommandView};
use crate::component::{all_declared, declaration, declared, DependencyInfo, DependencyInstallable};
use crate::components::rust::Rust;
use crate::dependency::{declarations, Dependency, DependencyView};
use crate::status::{DependencyError, InstallationStatus};
use crate::steps::{
    commands_of, find_at_or_by, found_at_or_by, install_step, install_with, noted, status_of,
    step_of, which, which_command, whole_check, Next, Reply,
};
use crate::system::{OperatingSystem, SystemData};

verus! {

/// tokei, and whether the last check found it.
#[derive(Debug, Clone, Copy)]
pub struct Tokei {
    pub tokei_available: bool,
}

impl Default for Tokei {
    fn default() -> (component: Self)
        ensures
            !component.tokei_available,
    {
        Tokei { tokei_available: false }
    }
}

impl Tokei {
    /// The component as it is before anything was checked: the same value
    /// at every call.
    pub fn singleton() -> (component: &'static Self)
        ensures
            !component.tokei_available,
    {
        &Tokei { tokei_available: false }
    }

    /// What the component declares on an operating system.
    pub open spec fn declared_on(os: OperatingSystem) -> Option<DependencyView> {
        declared(&Tokei { tokei_available: false }, os)
    }

    /// Where cargo puts the program.
    pub open spec fn path(system: &SystemData) -> Seq<char> {
        system.home_dir@ + "/.cargo/bin/tokei"@
    }

    /// The commands that install the component.
    pub open spec fn install_commands(system: &SystemData) -> Option<Seq<DCommandView>> {
        Some(seq![plain("cargo"@, seq!["install"@, "tokei"@])])
    }
}

impl DependencyInfo for Tokei {
    open spec fn spec_name(&self) -> Seq<char> {
        "tokei"@
    }

    open spec fn spec_prerequisites(&self, os: OperatingSystem) -> Option<Seq<DependencyView>> {
        all_declared(
            seq![
                Rust::declared_on(os),
            ],
        )
    }

    fn name(&self) -> (name: &'static str) {
        "tokei"
    }

    fn prerequisites(&self, os: OperatingSystem) -> (r: Result<Vec<Dependency>, DependencyError>) {
        let mut list: Vec<Dependency> = Vec::new();
        list.push(declaration(Rust::singleton(), os)?);
        assert(declarations(list@) =~= all_declared(
            seq![
                Rust::declared_on(os),
            ],
        )->0);
        Ok(list)
    }
}

impl DependencyInstallable for Tokei {
    /// Looks for the program where cargo puts it, and on the search path.
    fn is_installed(&mut self, system: &SystemData, replies: &[Reply]) -> (r: Result<
        Next<InstallationStatus>,
        DependencyError,
    >)
        ensures
            step_of(r) == whole_check(
                found_at_or_by(Tokei::path(system), which("tokei"@), replies@),
            ),
            final(self).tokei_available == noted(
                found_at_or_by(Tokei::path(system), which("tokei"@), replies@),
                old(self).tokei_available,
            ),
    {
        let path = system.home_path("/.cargo/bin/tokei");
        match find_at_or_by(path, which_command("tokei"), replies) {
            Err(e) => Err(e),
            Ok(Next::Ask(request)) => Ok(Next::Ask(request)),
            Ok(Next::Done(available)) => {
                self.tokei_available = available;
                Ok(Next::Done(status_of(available)))
            },
        }
    }

    /// Builds tokei with cargo, unless the last check found it.
    fn install(&mut self, system: &SystemData, replies: &[Reply]) -> (r: Result<
        Next<()>,
        DependencyError,
    >)
        ensures
            step_of(r) == install_step(
                old(self).tokei_available,
                Tokei::install_commands(system),
                replies@,
            ),
            final(self).tokei_available == (old(self).tokei_available
                || step_of(r) is Done),
    {
        let command = DCommand::new("cargo", &["install", "tokei"]);
        assert(slices((["install", "tokei"])@) =~= seq!["install"@, "tokei"@]);
        let mut list: Vec<DCommand> = Vec::new();
        list.push(command);
        assert(commands_of(list@) =~= Tokei::install_commands(system)->0);
        let commands = Some(list);
        let step = match install_with(self.tokei_available, commands, replies) {
            Err(e) => {
                return Err(e);
            },
            Ok(step) => step,
        };
        if let Next::Done(()) = step {
            self.tokei_available = true;
        }
        Ok(step)
    }
}

} // verus!
