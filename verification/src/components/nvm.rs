//! nvm, which manages versions of Node.js.

use vstd::prelude::*;
use vstd::string::StringExecFns;
use crate::command::{plain, slices, DCommand, DCommandView};
use crate::component::{all_declared, declaration, declared, DependencyInfo, DependencyInstallable};
use crate::components::curl::Curl;
use crate::components::package_cache_refresh::PackageCacheRefresh;
use crate::components::zshrc::Zshrc;
use crate::dependency::{declarations, Dependency, DependencyView};
use crate::status::{ConfigStatus, DependencyError, InstallationStatus};
use crate::steps::{
    after, answer_to, answered, looked_at, read_or_empty, read_or_empty_at, step_of, which,
    which_command, Next, Reply, Step,
};
use crate::system::{OperatingSystem, SystemData};
use crate::text::{lowercase, mentions, occurs_in};

verus! {

/// What an installation says where the installer left no trace of nvm in
/// the shell's start file.
pub open spec fn path_not_found() -> Seq<char> {
    "NVM path not found in .zshrc or .bashrc - should have been added by install script"@
}

/// nvm, and what the last check found of it.
#[derive(Debug, Clone, Copy)]
pub struct Nvm {
    pub nvm_available: bool,
    pub nvm_path: bool,
}

impl Default for Nvm {
    fn default() -> (component: Self)
        ensures
            !component.nvm_available,
            !component.nvm_path,
    {
        Nvm { nvm_available: false, nvm_path: false }
    }
}

impl Nvm {
    /// The component as it is before anything was checked: the same value
    /// at every call.
    pub fn singleton() -> (component: &'static Self)
        ensures
            !component.nvm_available,
            !component.nvm_path,
    {
        &Nvm { nvm_available: false, nvm_path: false }
    }

    /// What the component declares on an operating system.
    pub open spec fn declared_on(os: OperatingSystem) -> Option<DependencyView> {
        declared(&Nvm { nvm_available: false, nvm_path: false }, os)
    }

    /// The command that fetches the installer.
    pub open spec fn fetch_command() -> DCommandView {
        plain(
            "curl"@,
            seq!["-o-"@, "https://raw.githubusercontent.com/nvm-sh/nvm/v0.39.3/install.sh"@],
        )
    }

    /// The status of nvm, given what was found of it.
    pub open spec fn status(self) -> InstallationStatus {
        if self.nvm_available && self.nvm_path {
            InstallationStatus::FullyInstalled
        } else if !self.nvm_available && !self.nvm_path {
            InstallationStatus::NotInstalled
        } else {
            InstallationStatus::PartialInstall
        }
    }

    /// The number of the request that reads the shell's start file, in a
    /// check that starts with the request number `at`: it follows the look
    /// for nvm and the requests about `.zshrc`.
    pub open spec fn profile_at(system: &SystemData, replies: Seq<Reply>, at: int) -> int {
        if looked_at(Zshrc::path(system), replies, at + 1) == Step::Done(true) {
            at + 3
        } else {
            at + 2
        }
    }

    /// The shell's start file that is read: `.zshrc` where it is as it
    /// should be, and `.bashrc` otherwise.
    pub open spec fn profile_path(system: &SystemData, replies: Seq<Reply>, at: int) -> Seq<char> {
        if Zshrc::found(system, replies, at + 1) == Step::Done(ConfigStatus::PresentCorrect) {
            system.home_dir@ + "/.zshrc"@
        } else {
            system.home_dir@ + "/.bashrc"@
        }
    }

    /// The step of reading the shell's start file, in a check that starts
    /// with the request number `at`: nvm is looked for on the search path,
    /// `.zshrc` is looked at, and then the file is read.
    pub open spec fn profile_read(system: &SystemData, replies: Seq<Reply>, at: int) -> Step<
        Seq<char>,
    > {
        after(
            answered(which("nvm"@), replies, at),
            after(
                Zshrc::found(system, replies, at + 1),
                read_or_empty_at(
                    Nvm::profile_path(system, replies, at),
                    replies,
                    Nvm::profile_at(system, replies, at),
                ),
            ),
        )
    }

    /// What a check that starts with the request number `at` has noted
    /// after the replies so far: whether nvm is on the search path, and
    /// whether the shell's start file names it, in whatever case.
    pub open spec fn after_check(self, system: &SystemData, replies: Seq<Reply>, at: int) -> Nvm {
        match answered(which("nvm"@), replies, at) {
            Step::Done(found) => {
                let s0 = Nvm { nvm_available: found.success, ..self };
                match Nvm::profile_read(system, replies, at) {
                    Step::Done(profile) => Nvm {
                        nvm_path: occurs_in("nvm"@, lowercase(profile)),
                        ..s0
                    },
                    _ => s0,
                }
            },
            _ => self,
        }
    }

    /// The step of a check that starts with the request number `at`.
    pub open spec fn checked(self, system: &SystemData, replies: Seq<Reply>, at: int) -> Step<
        InstallationStatus,
    > {
        after(
            Nvm::profile_read(system, replies, at),
            Step::Done(self.after_check(system, replies, at).status()),
        )
    }

    /// The number of requests that an installation makes before it checks
    /// again: one for the installer where nvm was not found, none
    /// otherwise.
    pub open spec fn fetches(self) -> int {
        if self.nvm_available {
            0
        } else {
            1
        }
    }

    /// The step of fetching the installer, where nvm was not found.
    pub open spec fn fetched(self, replies: Seq<Reply>) -> Step<()> {
        if self.nvm_available {
            Step::Done(())
        } else {
            after(answered(Nvm::fetch_command(), replies, 0), Step::Done(()))
        }
    }

    /// What an installation has noted once it is done or has given up
    /// behind the installer: what the check that follows the installer has
    /// noted.
    pub open spec fn after_install(self, system: &SystemData, replies: Seq<Reply>) -> Nvm {
        (Nvm { nvm_available: true, ..self }).after_check(system, replies, self.fetches())
    }

    /// The step of an installation, or nothing where the check behind the
    /// installer does not find nvm in the shell's start file: that ends
    /// the installation with an error of its own.
    pub open spec fn installed(self, system: &SystemData, replies: Seq<Reply>) -> Option<
        Step<()>,
    > {
        if self.nvm_available && self.nvm_path {
            Some(Step::Done(()))
        } else {
            match self.fetched(replies) {
                Step::Ask(request) => Some(Step::Ask(request)),
                Step::Failed(e) => Some(Step::Failed(e)),
                Step::Done(_) => match (Nvm { nvm_available: true, ..self }).checked(
                    system,
                    replies,
                    self.fetches(),
                ) {
                    Step::Ask(request) => Some(Step::Ask(request)),
                    Step::Failed(e) => Some(Step::Failed(e)),
                    Step::Done(_) => if self.after_install(system, replies).nvm_path {
                        Some(Step::Done(()))
                    } else {
                        None
                    },
                },
            }
        }
    }

    /// A check that starts with the request number `at`; see `checked` and
    /// `after_check`.
    fn check_from(&mut self, system: &SystemData, replies: &[Reply], at: usize) -> (r: Result<
        Next<InstallationStatus>,
        DependencyError,
    >)
        requires
            at <= 1,
        ensures
            step_of(r) == old(self).checked(system, replies@, at as int),
            *final(self) == old(self).after_check(system, replies@, at as int),
    {
        let found = match answer_to(which_command("nvm"), replies, at) {
            Err(e) => {
                return Err(e);
            },
            Ok(Next::Ask(request)) => {
                return Ok(Next::Ask(request));
            },
            Ok(Next::Done(output)) => output.success,
        };
        self.nvm_available = found;
        let zshrc = match Zshrc::find(system, replies, at + 1) {
            Err(e) => {
                return Err(e);
            },
            Ok(Next::Ask(request)) => {
                return Ok(Next::Ask(request));
            },
            Ok(Next::Done(status)) => status,
        };
        let path = if zshrc.is_correct() {
            system.home_path("/.zshrc")
        } else {
            system.home_path("/.bashrc")
        };
        let profile_at = if matches!(zshrc, ConfigStatus::NotPresent) {
            at + 2
        } else {
            at + 3
        };
        let profile = match read_or_empty(path, replies, profile_at) {
            Err(e) => {
                return Err(e);
            },
            Ok(Next::Ask(request)) => {
                return Ok(Next::Ask(request));
            },
            Ok(Next::Done(profile)) => profile,
        };
        self.nvm_path = mentions(profile.as_str(), "nvm");
        if self.nvm_available && self.nvm_path {
            Ok(Next::Done(InstallationStatus::FullyInstalled))
        } else if !self.nvm_available && !self.nvm_path {
            Ok(Next::Done(InstallationStatus::NotInstalled))
        } else {
            Ok(Next::Done(InstallationStatus::PartialInstall))
        }
    }
}

impl DependencyInfo for Nvm {
    open spec fn spec_name(&self) -> Seq<char> {
        "nvm"@
    }

    open spec fn spec_prerequisites(&self, os: OperatingSystem) -> Option<Seq<DependencyView>> {
        all_declared(
            seq![
                PackageCacheRefresh::declared_on(os),
                Curl::declared_on(os),
            ],
        )
    }

    fn name(&self) -> (name: &'static str) {
        "nvm"
    }

    fn prerequisites(&self, os: OperatingSystem) -> (r: Result<Vec<Dependency>, DependencyError>) {
        let mut list: Vec<Dependency> = Vec::new();
        list.push(declaration(PackageCacheRefresh::singleton(), os)?);
        list.push(declaration(Curl::singleton(), os)?);
        assert(declarations(list@) =~= all_declared(
            seq![
                PackageCacheRefresh::declared_on(os),
                Curl::declared_on(os),
            ],
        )->0);
        Ok(list)
    }

    /// The file `.zshrc`, in which the installer names nvm.
    fn optional(&self, os: OperatingSystem) -> (r: Result<
        Vec<(&'static str, &'static str, Dependency)>,
        DependencyError,
    >)
        ensures
            match r {
                Ok(list) => list@.len() == 1 && list@[0].0@ == "zshrc"@ && list@[0].1@
                    == ""@ && Zshrc::declared_on(os) == Some(list@[0].2@),
                Err(e) => Zshrc::declared_on(os) is None && e
                    == DependencyError::UnsupportedOperatingSystem,
            },
    {
        let zshrc = declaration(Zshrc::singleton(), os)?;
        let mut list: Vec<(&'static str, &'static str, Dependency)> = Vec::new();
        list.push(("zshrc", "", zshrc));
        Ok(list)
    }
}

impl DependencyInstallable for Nvm {
    /// Looks for nvm on the search path and in the shell's start file, and
    /// notes each as soon as it is known.
    fn is_installed(&mut self, system: &SystemData, replies: &[Reply]) -> (r: Result<
        Next<InstallationStatus>,
        DependencyError,
    >)
        ensures
            step_of(r) == old(self).checked(system, replies@, 0),
            *final(self) == old(self).after_check(system, replies@, 0),
    {
        self.check_from(system, replies, 0)
    }

    /// Fetches the installer where nvm was not found, and then checks again:
    /// the installer is to have named nvm in the shell's start file. While a
    /// request is still made, what the last check noted stays; after that,
    /// what the new check found is noted.
    fn install(&mut self, system: &SystemData, replies: &[Reply]) -> (r: Result<
        Next<()>,
        DependencyError,
    >)
        ensures
            match old(self).installed(system, replies@) {
                Some(step) => step_of(r) == step,
                None => r matches Err(DependencyError::DependencyFailed(why)) && why@
                    == path_not_found(),
            },
            *final(self) == (if step_of(r) is Ask || (old(self).nvm_available && old(
                self,
            ).nvm_path) || !(old(self).fetched(replies@) is Done) {
                *old(self)
            } else {
                old(self).after_install(system, replies@)
            }),
    {
        if self.nvm_available && self.nvm_path {
            return Ok(Next::Done(()));
        }
        let mut at: usize = 0;
        if !self.nvm_available {
            let fetch = DCommand::new(
                "curl",
                &["-o-", "https://raw.githubusercontent.com/nvm-sh/nvm/v0.39.3/install.sh"],
            );
            assert(slices(
                (["-o-", "https://raw.githubusercontent.com/nvm-sh/nvm/v0.39.3/install.sh"])@,
            ) =~= Nvm::fetch_command().args);
            match answer_to(fetch, replies, 0) {
                Err(e) => {
                    return Err(e);
                },
                Ok(Next::Ask(request)) => {
                    return Ok(Next::Ask(request));
                },
                Ok(Next::Done(_)) => {},
            }
            at = 1;
        }
        let mut probe = *self;
        probe.nvm_available = true;
        match probe.check_from(system, replies, at) {
            Ok(Next::Ask(request)) => Ok(Next::Ask(request)),
            Err(e) => {
                *self = probe;
                Err(e)
            },
            Ok(Next::Done(_)) => {
                *self = probe;
                if !probe.nvm_path {
                    Err(
                        DependencyError::DependencyFailed(
                            String::from_str(
                                "NVM path not found in .zshrc or .bashrc - should have been added by install script",
                            ),
                        ),
                    )
                } else {
                    Ok(Next::Done(()))
                }
            },
        }
    }
}

} // verus!
