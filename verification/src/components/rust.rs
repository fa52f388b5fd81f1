//! The Rust toolchain.

use vstd::prelude::*;
use vstd::string::StringExecFns;
use crate::command::{slices, AsUser, DCommand, DCommandView};
use crate::component::{all_declared, declaration, declared, DependencyInfo, DependencyInstallable};
use crate::components::curl::Curl;
use crate::components::package_cache_refresh::PackageCacheRefresh;
use crate::dependency::{declarations, Dependency, DependencyView};
use crate::status::{DependencyError, InstallationStatus};
use crate::steps::{
    answer_to, answered, commands_of, install_step, install_with, step_of, which, which_command,
    Next, Reply, Step,
};
use crate::system::{OperatingSystem, SystemData};

verus! {

/// What the check says where it finds the compiler without cargo.
pub open spec fn compiler_without_cargo() -> Seq<char> {
    "This system seems to have rustc installed, but not cargo. This is an unresolvable error."@
}

/// The Rust toolchain, and what the last check found of it.
#[derive(Debug, Clone, Copy)]
pub struct Rust {
    pub rust_available: bool,
    pub cargo_available: bool,
}

impl Default for Rust {
    fn default() -> (component: Self)
        ensures
            !component.rust_available,
            !component.cargo_available,
    {
        Rust { rust_available: false, cargo_available: false }
    }
}

impl Rust {
    /// The component as it is before anything was checked: the same value
    /// at every call.
    pub fn singleton() -> (component: &'static Self)
        ensures
            !component.rust_available,
            !component.cargo_available,
    {
        &Rust { rust_available: false, cargo_available: false }
    }

    /// What the component declares on an operating system.
    pub open spec fn declared_on(os: OperatingSystem) -> Option<DependencyView> {
        declared(&Rust { rust_available: false, cargo_available: false }, os)
    }

    /// The status of the toolchain, given whether the compiler and cargo
    /// were found.
    pub open spec fn status(rustc: bool, cargo: bool) -> InstallationStatus {
        if rustc && cargo {
            InstallationStatus::FullyInstalled
        } else if !rustc && !cargo {
            InstallationStatus::NotInstalled
        } else {
            InstallationStatus::PartialInstall
        }
    }

    /// The step of the check, which looks for `rustc` and then for `cargo`
    /// on the search path, or nothing where it finds the compiler without
    /// cargo: that ends the check with an error of its own.
    pub open spec fn checked(replies: Seq<Reply>) -> Option<Step<InstallationStatus>> {
        match answered(which("rustc"@), replies, 0) {
            Step::Ask(request) => Some(Step::Ask(request)),
            Step::Failed(e) => Some(Step::Failed(e)),
            Step::Done(rustc) => match answered(which("cargo"@), replies, 1) {
                Step::Ask(request) => Some(Step::Ask(request)),
                Step::Failed(e) => Some(Step::Failed(e)),
                Step::Done(cargo) => if rustc.success && !cargo.success {
                    None
                } else {
                    Some(Step::Done(Rust::status(rustc.success, cargo.success)))
                },
            },
        }
    }

    /// The command that installs the toolchain: the installer is fetched
    /// and run by the shell, as the user.
    pub open spec fn install_command() -> DCommandView {
        DCommandView {
            cmd: "curl"@,
            args: seq!["https://sh.rustup.rs"@, "-sSf"@, "|"@, "sh"@, "-s"@, "--"@, "-y"@],
            user: AsUser::DefaultUser,
            live_print: false,
        }
    }
}

impl DependencyInfo for Rust {
    open spec fn spec_name(&self) -> Seq<char> {
        "rust"@
    }

    open spec fn spec_prerequisites(&self, os: OperatingSystem) -> Option<Seq<DependencyView>> {
        all_declared(
            seq![
                PackageCacheRefresh::declared_on(os),
                Curl::declared_on(os),
            ],
        )
    }

    fn name(&self) -> (name: &'static str) {
        "rust"
    }

    fn prerequisites(&self, os: OperatingSystem) -> (r: Result<Vec<Dependency>, DependencyError>) {
        let mut list: Vec<Dependency> = Vec::new();
        list.push(declaration(PackageCacheRefresh::singleton(), os)?);
        list.push(declaration(Curl::singleton(), os)?);
        assert(declarations(list@) =~= all_declared(
            seq![
                PackageCacheRefresh::declared_on(os),
                Curl::declared_on(os),
            ],
        )->0);
        Ok(list)
    }
}

impl DependencyInstallable for Rust {
    /// Looks for `rustc` and for `cargo` on the search path, and notes each
    /// as soon as its reply is there.
    fn is_installed(&mut self, system: &SystemData, replies: &[Reply]) -> (r: Result<
        Next<InstallationStatus>,
        DependencyError,
    >)
        ensures
            match Rust::checked(replies@) {
                Some(step) => step_of(r) == step,
                None => r matches Err(DependencyError::DependencyFailed(why)) && why@
                    == compiler_without_cargo(),
            },
            final(self).rust_available == (match answered(which("rustc"@), replies@, 0) {
                Step::Done(rustc) => rustc.success,
                _ => old(self).rust_available,
            }),
            final(self).cargo_available == (match (
                answered(which("rustc"@), replies@, 0),
                answered(which("cargo"@), replies@, 1),
            ) {
                (Step::Done(_), Step::Done(cargo)) => cargo.success,
                _ => old(self).cargo_available,
            }),
    {
        let rustc = match answer_to(which_command("rustc"), replies, 0) {
            Err(e) => {
                return Err(e);
            },
            Ok(Next::Ask(request)) => {
                return Ok(Next::Ask(request));
            },
            Ok(Next::Done(output)) => output.success,
        };
        self.rust_available = rustc;
        let cargo = match answer_to(which_command("cargo"), replies, 1) {
            Err(e) => {
                return Err(e);
            },
            Ok(Next::Ask(request)) => {
                return Ok(Next::Ask(request));
            },
            Ok(Next::Done(output)) => output.success,
        };
        self.cargo_available = cargo;
        if rustc && !cargo {
            return Err(
                DependencyError::DependencyFailed(
                    String::from_str(
                        "This system seems to have rustc installed, but not cargo. This is an unresolvable error.",
                    ),
                ),
            );
        }
        if rustc && cargo {
            Ok(Next::Done(InstallationStatus::FullyInstalled))
        } else if !rustc && !cargo {
            Ok(Next::Done(InstallationStatus::NotInstalled))
        } else {
            Ok(Next::Done(InstallationStatus::PartialInstall))
        }
    }

    /// Installs the toolchain with its installer, unless the last check
    /// found both the compiler and cargo.
    fn install(&mut self, system: &SystemData, replies: &[Reply]) -> (r: Result<
        Next<()>,
        DependencyError,
    >)
        ensures
            step_of(r) == install_step(
                old(self).rust_available && old(self).cargo_available,
                Some(seq![Rust::install_command()]),
                replies@,
            ),
            final(self).rust_available == (old(self).rust_available || step_of(r) is Done),
            final(self).cargo_available == (old(self).cargo_available || step_of(r) is Done),
    {
        let command = DCommand::new(
            "curl",
            &["https://sh.rustup.rs", "-sSf", "|", "sh", "-s", "--", "-y"],
        ).user(AsUser::DefaultUser);
        assert(slices((["https://sh.rustup.rs", "-sSf", "|", "sh", "-s", "--", "-y"])@) =~= seq![
            "https://sh.rustup.rs"@,
            "-sSf"@,
            "|"@,
            "sh"@,
            "-s"@,
            "--"@,
            "-y"@,
        ]);
        let mut list: Vec<DCommand> = Vec::new();
        list.push(command);
        assert(commands_of(list@) =~= seq![Rust::install_command()]);
        let available = self.rust_available && self.cargo_available;
        let step = match install_with(available, Some(list), replies) {
            Err(e) => {
                return Err(e);
            },
            Ok(step) => step,
        };
        if let Next::Done(()) = step {
            self.rust_available = true;
            self.cargo_available = true;
        }
        Ok(step)
    }
}

} // verus!
