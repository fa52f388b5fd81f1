//! bat, a `cat` with colours.

use vstd::prelude::*;
use crate::command::{slices, AsUser, DCommand, DCommandView};
use crate::component::{all_declared, declaration, declared, DependencyInfo, DependencyInstallable};
use crate::components::gcc::Gcc;
use crate::components::rust::Rust;
use crate::dependency::{declarations, Dependency, DependencyView};
use crate::status::{DependencyError, InstallationStatus};
use crate::steps::{
    commands_of, find_at_or_by, found_at_or_by, install_step, install_with, noted, status_of,
    step_of, which, which_command, whole_check, Next, Reply,
};
use crate::system::{OperatingSystem, SystemData};

verus! {

/// bat, and whether the last check found it.
#[derive(Debug, Clone, Copy)]
pub struct Bat {
    pub bat_available: bool,
}

impl Default for Bat {
    fn default() -> (component: Self)
        ensures
            !component.bat_available,
    {
        Bat { bat_available: false }
    }
}

impl Bat {
    /// The component as it is before anything was checked: the same value
    /// at every call.
    pub fn singleton() -> (component: &'static Self)
        ensures
            !component.bat_available,
    {
        &Bat { bat_available: false }
    }

    /// What the component declares on an operating system.
    pub open spec fn declared_on(os: OperatingSystem) -> Option<DependencyView> {
        declared(&Bat { bat_available: false }, os)
    }

    /// Where cargo puts the program.
    pub open spec fn path(system: &SystemData) -> Seq<char> {
        system.home_dir@ + "/.cargo/bin/bat"@
    }

    /// The commands that install the component.
    pub open spec fn install_commands(system: &SystemData) -> Option<Seq<DCommandView>> {
        Some(
            seq![
                DCommandView {
                    cmd: system.home_dir@ + "/.cargo/bin/cargo"@,
                    args: seq!["install"@, "bat"@],
                    user: AsUser::DefaultUser,
                    live_print: false,
                },
            ],
        )
    }
}

impl DependencyInfo for Bat {
    open spec fn spec_name(&self) -> Seq<char> {
        "bat"@
    }

    open spec fn spec_prerequisites(&self, os: OperatingSystem) -> Option<Seq<DependencyView>> {
        all_declared(
            seq![
                Rust::declared_on(os),
                Gcc::declared_on(os),
            ],
        )
    }

    fn name(&self) -> (name: &'static str) {
        "bat"
    }

    fn prerequisites(&self, os: OperatingSystem) -> (r: Result<Vec<Dependency>, DependencyError>) {
        let mut list: Vec<Dependency> = Vec::new();
        list.push(declaration(Rust::singleton(), os)?);
        list.push(declaration(Gcc::singleton(), os)?);
        assert(declarations(list@) =~= all_declared(
            seq![
                Rust::declared_on(os),
                Gcc::declared_on(os),
            ],
        )->0);
        Ok(list)
    }
}

impl DependencyInstallable for Bat {
    /// Looks for the program where cargo puts it, and on the search path.
    fn is_installed(&mut self, system: &SystemData, replies: &[Reply]) -> (r: Result<
        Next<InstallationStatus>,
        DependencyError,
    >)
        ensures
            step_of(r) == whole_check(
                found_at_or_by(Bat::path(system), which("bat"@), replies@),
            ),
            final(self).bat_available == noted(
                found_at_or_by(Bat::path(system), which("bat"@), replies@),
                old(self).bat_available,
            ),
    {
        let path = system.home_path("/.cargo/bin/bat");
        match find_at_or_by(path, which_command("bat"), replies) {
            Err(e) => Err(e),
            Ok(Next::Ask(request)) => Ok(Next::Ask(request)),
            Ok(Next::Done(available)) => {
                self.bat_available = available;
                Ok(Next::Done(status_of(available)))
            },
        }
    }

    /// Builds bat with the user's cargo, as the user, unless the last check found
    /// it.
    fn install(&mut self, system: &SystemData, replies: &[Reply]) -> (r: Result<
        Next<()>,
        DependencyError,
    >)
        ensures
            step_of(r) == install_step(
                old(self).bat_available,
                Bat::install_commands(system),
                replies@,
            ),
            final(self).bat_available == (old(self).bat_available
                || step_of(r) is Done),
    {
        let cargo = system.home_path("/.cargo/bin/cargo");
        let command = DCommand::new(cargo.as_str(), &["install", "bat"]).user(AsUser::DefaultUser);
        assert(slices((["install", "bat"])@) =~= seq!["install"@, "bat"@]);
        let mut list: Vec<DCommand> = Vec::new();
        list.push(command);
        assert(commands_of(list@) =~= Bat::install_commands(system)->0);
        let commands = Some(list);
        let step = match install_with(self.bat_available, commands, replies) {
            Err(e) => {
                return Err(e);
            },
            Ok(step) => step,
        };
        if let Next::Done(()) = step {
            self.bat_available = true;
        }
        Ok(step)
    }
}

} // verus!
