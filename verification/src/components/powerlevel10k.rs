//! Powerlevel10k, a theme for the Z shell, and its configuration file.

use vstd::prelude::*;
use crate::component::{all_declared, declaration, declared, DependencyInfo, DependencyInstallable};
use crate::components::ohmyzsh::OhMyZsh;
use crate::components::zsh::Zsh;
use crate::dependency::{declarations, Dependency, DependencyView};
use crate::status::{ConfigStatus, DependencyError, InstallationStatus};
use crate::steps::{
    answer_to, answered, done_at, git_clone, git_clone_command, have_done, look_at, looked_at,
    read, read_at, step_of, Next, Reply, Request, RequestView, Step,
};
use crate::system::{OperatingSystem, SystemData};

verus! {

/// The theme, and what the last check found of its configuration and of its
/// files.
#[derive(Debug, Clone, Copy)]
pub struct PowerLevel10k {
    pub p10k_config_available: ConfigStatus,
    pub p10k_repo_installed: bool,
}

impl Default for PowerLevel10k {
    fn default() -> (component: Self)
        ensures
            component.p10k_config_available == ConfigStatus::NotPresent,
            !component.p10k_repo_installed,
    {
        PowerLevel10k {
            p10k_config_available: ConfigStatus::NotPresent,
            p10k_repo_installed: false,
        }
    }
}

impl PowerLevel10k {
    /// The component as it is before anything was checked: the same value
    /// at every call.
    pub fn singleton() -> (component: &'static Self)
        ensures
            component.p10k_config_available == ConfigStatus::NotPresent,
            !component.p10k_repo_installed,
    {
        &PowerLevel10k {
            p10k_config_available: ConfigStatus::NotPresent,
            p10k_repo_installed: false,
        }
    }

    /// What the component declares on an operating system.
    pub open spec fn declared_on(os: OperatingSystem) -> Option<DependencyView> {
        declared(
            &PowerLevel10k {
                p10k_config_available: ConfigStatus::NotPresent,
                p10k_repo_installed: false,
            },
            os,
        )
    }

    /// Where the configuration file stands.
    pub open spec fn config_path(system: &SystemData) -> Seq<char> {
        system.home_dir@ + "/.p10k.zsh"@
    }

    /// Where the theme's files are cloned to.
    pub open spec fn files_path(system: &SystemData) -> Seq<char> {
        system.home_dir@ + "/.oh-my-zsh/custom/themes/powerlevel10k"@
    }

    /// Where the theme's files are fetched from.
    pub open spec fn url() -> Seq<char> {
        "https://gitee.com/romkatv/powerlevel10k.git"@
    }

    /// The step of finding out what there is of the configuration file:
    /// whether it is there, and, if it is, whether it holds exactly what it
    /// should.
    pub open spec fn config_found(system: &SystemData, replies: Seq<Reply>) -> Step<ConfigStatus> {
        let path = PowerLevel10k::config_path(system);
        match looked_at(path, replies, 0) {
            Step::Ask(request) => Step::Ask(request),
            Step::Failed(e) => Step::Failed(e),
            Step::Done(present) => if !present {
                Step::Done(ConfigStatus::NotPresent)
            } else {
                match read_at(path, replies, 1) {
                    Step::Ask(request) => Step::Ask(request),
                    Step::Failed(e) => Step::Failed(e),
                    Step::Done(contents) => Step::Done(
                        if contents@ == system.p10k_config@ {
                            ConfigStatus::PresentCorrect
                        } else {
                            ConfigStatus::PresentIncorrect
                        },
                    ),
                }
            },
        }
    }

    /// The number of the request that looks for the theme's files: it
    /// follows the requests about the configuration file.
    pub open spec fn files_at(system: &SystemData, replies: Seq<Reply>) -> int {
        if looked_at(PowerLevel10k::config_path(system), replies, 0) == Step::Done(true) {
            2
        } else {
            1
        }
    }

    /// The step of finding out whether the theme's files are there, once
    /// the configuration file was looked at.
    pub open spec fn files_found(system: &SystemData, replies: Seq<Reply>) -> Step<bool> {
        match PowerLevel10k::config_found(system, replies) {
            Step::Ask(request) => Step::Ask(request),
            Step::Failed(e) => Step::Failed(e),
            Step::Done(_) => looked_at(
                PowerLevel10k::files_path(system),
                replies,
                PowerLevel10k::files_at(system, replies),
            ),
        }
    }

    /// The status of the theme, given what was found of the configuration
    /// file and whether the files are there.
    pub open spec fn status(config: ConfigStatus, files: bool) -> InstallationStatus {
        if config is PresentCorrect && files {
            InstallationStatus::FullyInstalled
        } else if config is NotPresent && !files {
            InstallationStatus::NotInstalled
        } else {
            InstallationStatus::PartialInstall
        }
    }

    /// The step of writing the configuration file, with the number of the
    /// request that follows once it is done. Nothing is asked for where the
    /// last check found the file as it should be; otherwise a file that is
    /// in the way is moved aside and the file is written.
    pub open spec fn config_written(self, system: &SystemData, replies: Seq<Reply>) -> Step<int> {
        let path = PowerLevel10k::config_path(system);
        let write = RequestView::WriteFile(path, system.p10k_config@);
        if self.p10k_config_available is PresentCorrect {
            Step::Done(0)
        } else {
            match looked_at(path, replies, 0) {
                Step::Ask(request) => Step::Ask(request),
                Step::Failed(e) => Step::Failed(e),
                Step::Done(present) => if !present {
                    match done_at(write, replies, 1) {
                        Step::Ask(request) => Step::Ask(request),
                        Step::Failed(e) => Step::Failed(e),
                        Step::Done(_) => Step::Done(2),
                    }
                } else {
                    match done_at(RequestView::Backup(path), replies, 1) {
                        Step::Ask(request) => Step::Ask(request),
                        Step::Failed(e) => Step::Failed(e),
                        Step::Done(_) => match done_at(write, replies, 2) {
                            Step::Ask(request) => Step::Ask(request),
                            Step::Failed(e) => Step::Failed(e),
                            Step::Done(_) => Step::Done(3),
                        },
                    }
                },
            }
        }
    }

    /// The step of an installation: the configuration file is written where
    /// it was not found as it should be, and then the theme's files are
    /// cloned where they were not found.
    pub open spec fn installed(self, system: &SystemData, replies: Seq<Reply>) -> Step<()> {
        match self.config_written(system, replies) {
            Step::Ask(request) => Step::Ask(request),
            Step::Failed(e) => Step::Failed(e),
            Step::Done(next) => if self.p10k_repo_installed {
                Step::Done(())
            } else {
                match answered(
                    git_clone(PowerLevel10k::url(), PowerLevel10k::files_path(system)),
                    replies,
                    next,
                ) {
                    Step::Ask(request) => Step::Ask(request),
                    Step::Failed(e) => Step::Failed(e),
                    Step::Done(_) => Step::Done(()),
                }
            },
        }
    }
}

impl DependencyInfo for PowerLevel10k {
    open spec fn spec_name(&self) -> Seq<char> {
        "powerlevel10k"@
    }

    open spec fn spec_prerequisites(&self, os: OperatingSystem) -> Option<Seq<DependencyView>> {
        all_declared(
            seq![
                Zsh::declared_on(os),
                OhMyZsh::declared_on(os),
            ],
        )
    }

    fn name(&self) -> (name: &'static str) {
        "powerlevel10k"
    }

    fn prerequisites(&self, os: OperatingSystem) -> (r: Result<Vec<Dependency>, DependencyError>) {
        let mut list: Vec<Dependency> = Vec::new();
        list.push(declaration(Zsh::singleton(), os)?);
        list.push(declaration(OhMyZsh::singleton(), os)?);
        assert(declarations(list@) =~= all_declared(
            seq![
                Zsh::declared_on(os),
                OhMyZsh::declared_on(os),
            ],
        )->0);
        Ok(list)
    }
}

impl DependencyInstallable for PowerLevel10k {
    /// Looks at the configuration file and then for the theme's files, and
    /// notes each as soon as it is known.
    fn is_installed(&mut self, system: &SystemData, replies: &[Reply]) -> (r: Result<
        Next<InstallationStatus>,
        DependencyError,
    >)
        ensures
            step_of(r) == (match (
                PowerLevel10k::config_found(system, replies@),
                PowerLevel10k::files_found(system, replies@),
            ) {
                (Step::Done(config), Step::Done(files)) => Step::Done(
                    PowerLevel10k::status(config, files),
                ),
                (_, Step::Ask(request)) => Step::Ask(request),
                (_, Step::Failed(e)) => Step::Failed(e),
                (Step::Ask(request), _) => Step::Ask(request),
                (Step::Failed(e), _) => Step::Failed(e),
            }),
            final(self).p10k_config_available == (match PowerLevel10k::config_found(
                system,
                replies@,
            ) {
                Step::Done(config) => config,
                _ => old(self).p10k_config_available,
            }),
            final(self).p10k_repo_installed == (match PowerLevel10k::files_found(
                system,
                replies@,
            ) {
                Step::Done(files) => files,
                _ => old(self).p10k_repo_installed,
            }),
    {
        let present = match look_at(system.home_path("/.p10k.zsh"), replies, 0) {
            Err(e) => {
                return Err(e);
            },
            Ok(Next::Ask(request)) => {
                return Ok(Next::Ask(request));
            },
            Ok(Next::Done(present)) => present,
        };
        let mut is_correct = false;
        let mut at: usize = 1;
        if present {
            let contents = match read(system.home_path("/.p10k.zsh"), replies, 1) {
                Err(e) => {
                    return Err(e);
                },
                Ok(Next::Ask(request)) => {
                    return Ok(Next::Ask(request));
                },
                Ok(Next::Done(contents)) => contents,
            };
            is_correct = *contents == system.p10k_config;
            at = 2;
        }
        let config = ConfigStatus::of(present, is_correct);
        self.p10k_config_available = config;
        let files = match look_at(
            system.home_path("/.oh-my-zsh/custom/themes/powerlevel10k"),
            replies,
            at,
        ) {
            Err(e) => {
                return Err(e);
            },
            Ok(Next::Ask(request)) => {
                return Ok(Next::Ask(request));
            },
            Ok(Next::Done(files)) => files,
        };
        self.p10k_repo_installed = files;
        if config.is_correct() && files {
            Ok(Next::Done(InstallationStatus::FullyInstalled))
        } else if matches!(config, ConfigStatus::NotPresent) && !files {
            Ok(Next::Done(InstallationStatus::NotInstalled))
        } else {
            Ok(Next::Done(InstallationStatus::PartialInstall))
        }
    }

    /// Writes the configuration file and clones the theme's files, each
    /// where the last check did not find it as it should be. While a request
    /// is still made, what the check noted stays; once the installation is
    /// done or has given up, each part that was done is noted.
    fn install(&mut self, system: &SystemData, replies: &[Reply]) -> (r: Result<
        Next<()>,
        DependencyError,
    >)
        ensures
            step_of(r) == old(self).installed(system, replies@),
            final(self).p10k_config_available == (if !(step_of(r) is Ask) && old(
                self,
            ).config_written(system, replies@) is Done {
                ConfigStatus::PresentCorrect
            } else {
                old(self).p10k_config_available
            }),
            final(self).p10k_repo_installed == (old(self).p10k_repo_installed
                || step_of(r) is Done),
    {
        let mut at: usize = 0;
        if !self.p10k_config_available.is_correct() {
            let present = match look_at(system.home_path("/.p10k.zsh"), replies, 0) {
                Err(e) => {
                    return Err(e);
                },
                Ok(Next::Ask(request)) => {
                    return Ok(Next::Ask(request));
                },
                Ok(Next::Done(present)) => present,
            };
            at = 1;
            if present {
                match have_done(Request::Backup(system.home_path("/.p10k.zsh")), replies, 1) {
                    Err(e) => {
                        return Err(e);
                    },
                    Ok(Next::Ask(request)) => {
                        return Ok(Next::Ask(request));
                    },
                    Ok(Next::Done(())) => {},
                }
                at = 2;
            }
            match have_done(
                Request::WriteFile(system.home_path("/.p10k.zsh"), system.p10k_config.clone()),
                replies,
                at,
            ) {
                Err(e) => {
                    return Err(e);
                },
                Ok(Next::Ask(request)) => {
                    return Ok(Next::Ask(request));
                },
                Ok(Next::Done(())) => {},
            }
            at = at + 1;
        }
        if !self.p10k_repo_installed {
            let files = system.home_path("/.oh-my-zsh/custom/themes/powerlevel10k");
            let clone = git_clone_command(
                "https://gitee.com/romkatv/powerlevel10k.git",
                files.as_str(),
            );
            match answer_to(clone, replies, at) {
                Err(e) => {
                    self.p10k_config_available = ConfigStatus::PresentCorrect;
                    return Err(e);
                },
                Ok(Next::Ask(request)) => {
                    return Ok(Next::Ask(request));
                },
                Ok(Next::Done(_)) => {},
            }
        }
        self.p10k_config_available = ConfigStatus::PresentCorrect;
        self.p10k_repo_installed = true;
        Ok(Next::Done(()))
    }
}

} // verus!
