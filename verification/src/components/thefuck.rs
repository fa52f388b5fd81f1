//! thefuck, which corrects the last command.

use vstd::prelude::*;
use vstd::string::StringExecFns;
use crate::command::{plain, slices, DCommand, DCommandView};
use crate::component::{all_declared, declaration, declared, DependencyInfo, DependencyInstallable};
use crate::components::pip3::Pip3;
use crate::components::python3::Python3;
use crate::components::python3_dev::Python3Dev;
use crate::components::setuptools::SetupTools;
use crate::dependency::{declarations, Dependency, DependencyView};
use crate::status::{DependencyError, InstallationStatus};
use crate::steps::{
    commands_of, find_at_or_by, found_at_or_by, install_step, install_with, noted, status_of,
    step_of, which, which_command, whole_check, Next, Reply,
};
use crate::system::{OperatingSystem, SystemData};

verus! {

/// thefuck, and whether the last check found it.
#[derive(Debug, Clone, Copy)]
pub struct TheFuck {
    pub the_fuck_available: bool,
}

impl Default for TheFuck {
    fn default() -> (component: Self)
        ensures
            !component.the_fuck_available,
    {
        TheFuck { the_fuck_available: false }
    }
}

impl TheFuck {
    /// The component as it is before anything was checked: the same value
    /// at every call.
    pub fn singleton() -> (component: &'static Self)
        ensures
            !component.the_fuck_available,
    {
        &TheFuck { the_fuck_available: false }
    }

    /// What the component declares on an operating system.
    pub open spec fn declared_on(os: OperatingSystem) -> Option<DependencyView> {
        declared(&TheFuck { the_fuck_available: false }, os)
    }

    /// Where the program is installed.
    pub open spec fn path(system: &SystemData) -> Seq<char> {
        "/usr/local/bin/thefuck"@
    }

    /// The commands that install the component.
    pub open spec fn install_commands(system: &SystemData) -> Option<Seq<DCommandView>> {
        Some(seq![plain("python3"@, seq!["-m"@, "pip3"@, "install"@, "thefuck"@, "--user"@])])
    }
}

impl DependencyInfo for TheFuck {
    open spec fn spec_name(&self) -> Seq<char> {
        "the-fuck"@
    }

    open spec fn spec_prerequisites(&self, os: OperatingSystem) -> Option<Seq<DependencyView>> {
        all_declared(
            seq![
                Pip3::declared_on(os),
                Python3::declared_on(os),
                SetupTools::declared_on(os),
                Python3Dev::declared_on(os),
            ],
        )
    }

    fn name(&self) -> (name: &'static str) {
        "the-fuck"
    }

    fn prerequisites(&self, os: OperatingSystem) -> (r: Result<Vec<Dependency>, DependencyError>) {
        let mut list: Vec<Dependency> = Vec::new();
        list.push(declaration(Pip3::singleton(), os)?);
        list.push(declaration(Python3::singleton(), os)?);
        list.push(declaration(SetupTools::singleton(), os)?);
        list.push(declaration(Python3Dev::singleton(), os)?);
        assert(declarations(list@) =~= all_declared(
            seq![
                Pip3::declared_on(os),
                Python3::declared_on(os),
                SetupTools::declared_on(os),
                Python3Dev::declared_on(os),
            ],
        )->0);
        Ok(list)
    }
}

impl DependencyInstallable for TheFuck {
    /// Looks for the program where it is installed, and on the search path.
    fn is_installed(&mut self, system: &SystemData, replies: &[Reply]) -> (r: Result<
        Next<InstallationStatus>,
        DependencyError,
    >)
        ensures
            step_of(r) == whole_check(
                found_at_or_by(TheFuck::path(system), which("thefuck"@), replies@),
            ),
            final(self).the_fuck_available == noted(
                found_at_or_by(TheFuck::path(system), which("thefuck"@), replies@),
                old(self).the_fuck_available,
            ),
    {
        let path = String::from_str("/usr/local/bin/thefuck");
        match find_at_or_by(path, which_command("thefuck"), replies) {
            Err(e) => Err(e),
            Ok(Next::Ask(request)) => Ok(Next::Ask(request)),
            Ok(Next::Done(available)) => {
                self.the_fuck_available = available;
                Ok(Next::Done(status_of(available)))
            },
        }
    }

    /// Installs thefuck with pip for the user, unless the last check found it.
    fn install(&mut self, system: &SystemData, replies: &[Reply]) -> (r: Result<
        Next<()>,
        DependencyError,
    >)
        ensures
            step_of(r) == install_step(
                old(self).the_fuck_available,
                TheFuck::install_commands(system),
                replies@,
            ),
            final(self).the_fuck_available == (old(self).the_fuck_available
                || step_of(r) is Done),
    {
        let command = DCommand::new("python3", &["-m", "pip3", "install", "thefuck", "--user"]);
        assert(slices((["-m", "pip3", "install", "thefuck", "--user"])@) =~= seq![
            "-m"@,
            "pip3"@,
            "install"@,
            "thefuck"@,
            "--user"@,
        ]);
        let mut list: Vec<DCommand> = Vec::new();
        list.push(command);
        assert(commands_of(list@) =~= TheFuck::install_commands(system)->0);
        let commands = Some(list);
        let step = match install_with(self.the_fuck_available, commands, replies) {
            Err(e) => {
                return Err(e);
            },
            Ok(step) => step,
        };
        if let Next::Done(()) = step {
            self.the_fuck_available = true;
        }
        Ok(step)
    }
}

} // verus!
