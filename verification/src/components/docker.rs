//! Docker: its package repository, its packages, its service, and the user's
//! membership in its group.

use vstd::prelude::*;
use crate::command::{plain, slices, DCommand, DCommandView};
use crate::component::{all_declared, declaration, declared, DependencyInfo, DependencyInstallable};
use crate::components::apt_transport_https::AptTransportHttps;
use crate::components::ca_certificates::CaCertificates;
use crate::components::curl::Curl;
use crate::components::gnupg::Gnupg;
use crate::dependency::{declarations, Dependency, DependencyView};
use crate::status::{DependencyError, InstallationStatus};
use crate::steps::{
    after, answer_to, answered, commands_of, completed, count_completed, in_order,
    lemma_in_order_done, run_in_order, step_of, Next, Reply, Step,
};
use crate::system::{OperatingSystem, SystemData};
use crate::text::{contains, occurs_in, same_text};

verus! {

/// The line that names Docker's package repository to `apt`, with what
/// writes it to its place.
pub open spec fn repository_line() -> Seq<char> {
    "[arch=\"$(dpkg --print-architecture)\" signed-by=/etc/apt/keyrings/docker.gpg] https://download.docker.com/linux/ubuntu \"$(. /etc/os-release && echo \"$VERSION_CODENAME\")\" stable\" | sudo tee /etc/apt/sources.list.d/docker.list > /dev/null"@
}

/// The commands that make Docker's package repository known to `apt`.
pub open spec fn repository_commands() -> Seq<DCommandView> {
    seq![
        plain("install"@, seq!["-m"@, "0755"@, "-d"@, "/etc/apt/keyrings"@]),
        plain(
            "curl"@,
            seq![
                "-fsSL"@,
                "https://download.docker.com/linux/ubuntu/gpg"@,
                "|"@,
                "sudo gpg --dearmor -o /etc/apt/keyrings/docker.gpg"@,
            ],
        ),
        plain("chmod"@, seq!["a+r"@, "/etc/apt/keyrings/docker.gpg"@]),
        plain("deb"@, seq![repository_line()]),
        plain("apt-get"@, seq!["update"@]),
    ]
}

/// The command that installs Docker's packages.
pub open spec fn packages_command() -> DCommandView {
    plain(
        "apt-get"@,
        seq![
            "install"@,
            "-y"@,
            "docker-ce"@,
            "docker-ce-cli"@,
            "containerd.io"@,
            "docker-buildx-plugin"@,
            "docker-compose-plugin"@,
        ],
    )
}

/// The command that has the service started with the machine.
pub open spec fn enable_command() -> DCommandView {
    plain("systemctl"@, seq!["enable"@, "docker.service"@])
}

/// The command that starts the service.
pub open spec fn start_command() -> DCommandView {
    plain("systemctl"@, seq!["start"@, "docker.service"@])
}

/// The command that puts a user into Docker's group.
pub open spec fn group_command(user: Seq<char>) -> DCommandView {
    plain("usermod"@, seq!["-aG"@, "docker"@, user])
}

/// The command that asks the package manager for Docker's repository, and
/// the text in its output that shows that the repository is known.
pub open spec fn repository_probe(os: OperatingSystem) -> Option<(DCommandView, Seq<char>)> {
    if os is Ubuntu2204 || os is Ubuntu2004 || os is Ubuntu1804 {
        Some((plain("apt-cache"@, seq!["policy"@, "docker-ce"@]), "Candidate: 5:"@))
    } else if os is Fedora38 || os is Rocky8 || os is Rocky9 {
        Some((plain("dnf"@, seq!["list"@, "docker-ce"@]), "docker-ce.x86_64"@))
    } else {
        None
    }
}

/// The commands that make Docker's package repository known to `apt`.
fn push_repository_commands(list: &mut Vec<DCommand>)
    ensures
        commands_of(final(list)@) == commands_of(old(list)@) + repository_commands(),
{
    let ghost before = commands_of(list@);
    let keyrings = DCommand::new("install", &["-m", "0755", "-d", "/etc/apt/keyrings"]);
    assert(slices((["-m", "0755", "-d", "/etc/apt/keyrings"])@) =~= seq![
        "-m"@,
        "0755"@,
        "-d"@,
        "/etc/apt/keyrings"@,
    ]);
    let key = DCommand::new(
        "curl",
        &[
            "-fsSL",
            "https://download.docker.com/linux/ubuntu/gpg",
            "|",
            "sudo gpg --dearmor -o /etc/apt/keyrings/docker.gpg",
        ],
    );
    assert(slices(
        ([
            "-fsSL",
            "https://download.docker.com/linux/ubuntu/gpg",
            "|",
            "sudo gpg --dearmor -o /etc/apt/keyrings/docker.gpg",
        ])@,
    ) =~= seq![
        "-fsSL"@,
        "https://download.docker.com/linux/ubuntu/gpg"@,
        "|"@,
        "sudo gpg --dearmor -o /etc/apt/keyrings/docker.gpg"@,
    ]);
    let readable = DCommand::new("chmod", &["a+r", "/etc/apt/keyrings/docker.gpg"]);
    assert(slices((["a+r", "/etc/apt/keyrings/docker.gpg"])@) =~= seq![
        "a+r"@,
        "/etc/apt/keyrings/docker.gpg"@,
    ]);
    let source = DCommand::new(
        "deb",
        &[
            "[arch=\"$(dpkg --print-architecture)\" signed-by=/etc/apt/keyrings/docker.gpg] https://download.docker.com/linux/ubuntu \"$(. /etc/os-release && echo \"$VERSION_CODENAME\")\" stable\" | sudo tee /etc/apt/sources.list.d/docker.list > /dev/null",
        ],
    );
    assert(slices(
        ([
            "[arch=\"$(dpkg --print-architecture)\" signed-by=/etc/apt/keyrings/docker.gpg] https://download.docker.com/linux/ubuntu \"$(. /etc/os-release && echo \"$VERSION_CODENAME\")\" stable\" | sudo tee /etc/apt/sources.list.d/docker.list > /dev/null",
        ])@,
    ) =~= seq![repository_line()]);
    let update = DCommand::new("apt-get", &["update"]);
    assert(slices((["update"])@) =~= seq!["update"@]);
    list.push(keyrings);
    list.push(key);
    list.push(readable);
    list.push(source);
    list.push(update);
    assert(commands_of(list@) =~= before + repository_commands());
}

/// Docker, and what the last check found of each of its parts.
#[derive(Debug, Clone, Copy)]
pub struct Docker {
    pub repo_available: bool,
    pub docker_installed: bool,
    pub docker_service_enabled: bool,
    pub docker_service_running: bool,
    pub user_in_docker_group: bool,
}

impl Default for Docker {
    fn default() -> (component: Self)
        ensures
            !component.repo_available,
            !component.docker_installed,
            !component.docker_service_enabled,
            !component.docker_service_running,
            !component.user_in_docker_group,
    {
        Docker { repo_available: false, docker_installed: false, docker_service_enabled: false, docker_service_running: false, user_in_docker_group: false }
    }
}

impl Docker {
    /// The component as it is before anything was checked: the same value
    /// at every call.
    pub fn singleton() -> (component: &'static Self)
        ensures
            !component.repo_available,
            !component.docker_installed,
            !component.docker_service_enabled,
            !component.docker_service_running,
            !component.user_in_docker_group,
    {
        &Docker { repo_available: false, docker_installed: false, docker_service_enabled: false, docker_service_running: false, user_in_docker_group: false }
    }

    /// The component as it is before anything was checked.
    pub fn new() -> (component: Self)
        ensures
            !component.repo_available,
            !component.docker_installed,
            !component.docker_service_enabled,
            !component.docker_service_running,
            !component.user_in_docker_group,
    {
        Docker { repo_available: false, docker_installed: false, docker_service_enabled: false, docker_service_running: false, user_in_docker_group: false }
    }

    /// What the component declares on an operating system.
    pub open spec fn declared_on(os: OperatingSystem) -> Option<DependencyView> {
        declared(&Docker { repo_available: false, docker_installed: false, docker_service_enabled: false, docker_service_running: false, user_in_docker_group: false }, os)
    }

    /// The status of Docker, given what was found of its parts.
    pub open spec fn status(self) -> InstallationStatus {
        if !self.repo_available && !self.docker_installed && !self.docker_service_enabled
            && !self.docker_service_running && !self.user_in_docker_group {
            InstallationStatus::NotInstalled
        } else if self.is_whole() {
            InstallationStatus::FullyInstalled
        } else {
            InstallationStatus::PartialInstall
        }
    }

    /// Whether every part of Docker is noted as there.
    pub open spec fn is_whole(self) -> bool {
        self.repo_available && self.docker_installed && self.docker_service_enabled
            && self.docker_service_running && self.user_in_docker_group
    }

    /// What a check has noted after the replies so far. The repository
    /// comes first; without it nothing else is looked at. Then Docker
    /// counts as installed once its version was asked for; the service is
    /// enabled and running where `systemctl` says exactly so; and the user
    /// is in the group where `groups` names it.
    pub open spec fn after_check(self, system: &SystemData, replies: Seq<Reply>) -> Docker {
        match repository_probe(system.operating_system) {
            None => self,
            Some((probe, marker)) => match answered(probe, replies, 0) {
                Step::Done(repository) => {
                    let s0 = Docker {
                        repo_available: occurs_in(marker, repository.stdout@),
                        ..self
                    };
                    if !s0.repo_available {
                        s0
                    } else {
                        match answered(plain("docker"@, seq!["--version"@]), replies, 1) {
                            Step::Done(_) => {
                                let s1 = Docker { docker_installed: true, ..s0 };
                                match answered(
                                    plain("systemctl"@, seq!["is-enabled"@, "docker"@]),
                                    replies,
                                    2,
                                ) {
                                    Step::Done(enabled) => {
                                        let s2 = Docker {
                                            docker_service_enabled: enabled.stdout@ == "enabled"@,
                                            ..s1
                                        };
                                        match answered(
                                            plain("systemctl"@, seq!["is-active"@, "docker"@]),
                                            replies,
                                            3,
                                        ) {
                                            Step::Done(active) => {
                                                let s3 = Docker {
                                                    docker_service_running: active.stdout@
                                                        == "active"@,
                                                    ..s2
                                                };
                                                match answered(
                                                    plain("groups"@, seq![system.current_user@]),
                                                    replies,
                                                    4,
                                                ) {
                                                    Step::Done(groups) => Docker {
                                                        user_in_docker_group: occurs_in(
                                                            "docker"@,
                                                            groups.stdout@,
                                                        ),
                                                        ..s3
                                                    },
                                                    _ => s3,
                                                }
                                            },
                                            _ => s2,
                                        }
                                    },
                                    _ => s1,
                                }
                            },
                            _ => s0,
                        }
                    }
                },
                _ => self,
            },
        }
    }

    /// The step of a check: the five commands in order, of which the last
    /// four are run only where the first shows the repository.
    pub open spec fn checked(self, system: &SystemData, replies: Seq<Reply>) -> Step<
        InstallationStatus,
    > {
        match repository_probe(system.operating_system) {
            None => Step::Failed(DependencyError::UnsupportedOperatingSystem),
            Some((probe, marker)) => match answered(probe, replies, 0) {
                Step::Ask(request) => Step::Ask(request),
                Step::Failed(e) => Step::Failed(e),
                Step::Done(repository) => if !occurs_in(marker, repository.stdout@) {
                    Step::Done(InstallationStatus::NotInstalled)
                } else {
                    after(
                        answered(plain("docker"@, seq!["--version"@]), replies, 1),
                        after(
                            answered(
                                plain("systemctl"@, seq!["is-enabled"@, "docker"@]),
                                replies,
                                2,
                            ),
                            after(
                                answered(
                                    plain("systemctl"@, seq!["is-active"@, "docker"@]),
                                    replies,
                                    3,
                                ),
                                after(
                                    answered(
                                        plain("groups"@, seq![system.current_user@]),
                                        replies,
                                        4,
                                    ),
                                    Step::Done(self.after_check(system, replies).status()),
                                ),
                            ),
                        ),
                    )
                },
            },
        }
    }

    /// The commands of an installation, given what the last check noted:
    /// for each part that was not found, the commands that bring it, in the
    /// order repository, packages, service enabled, service started, user in
    /// the group.
    pub open spec fn plan(self, system: &SystemData) -> Seq<DCommandView> {
        (if self.repo_available {
            Seq::empty()
        } else {
            repository_commands()
        }) + (if self.docker_installed {
            Seq::empty()
        } else {
            seq![packages_command()]
        }) + (if self.docker_service_enabled {
            Seq::empty()
        } else {
            seq![enable_command()]
        }) + (if self.docker_service_running {
            Seq::empty()
        } else {
            seq![start_command()]
        }) + (if self.user_in_docker_group {
            Seq::empty()
        } else {
            seq![group_command(system.current_user@)]
        })
    }

    /// Whether an installation has anything to run: the operating system is
    /// Ubuntu or Pop!_OS, and some part of Docker was not found.
    pub open spec fn installs(self, system: &SystemData) -> bool {
        let os = system.operating_system;
        (os is Ubuntu2204 || os is Ubuntu2004 || os is Ubuntu1804 || os is PopOS2104)
            && !self.is_whole()
    }

    /// The step of an installation. Docker is installed on Ubuntu and on
    /// Pop!_OS only.
    pub open spec fn installed(self, system: &SystemData, replies: Seq<Reply>) -> Step<()> {
        let os = system.operating_system;
        if os is Ubuntu2204 || os is Ubuntu2004 || os is Ubuntu1804 || os is PopOS2104 {
            if self.is_whole() {
                Step::Done(())
            } else {
                in_order(self.plan(system), replies)
            }
        } else {
            Step::Failed(DependencyError::UnsupportedOperatingSystem)
        }
    }

    /// What an installation has noted once `done` commands of its plan
    /// ran: every part whose commands all ran is there.
    pub open spec fn after_install(self, done: nat) -> Docker {
        let repository: nat = if self.repo_available {
            0
        } else {
            5
        };
        let packages = repository + (if self.docker_installed {
            0nat
        } else {
            1nat
        });
        let enabled = packages + (if self.docker_service_enabled {
            0nat
        } else {
            1nat
        });
        let started = enabled + (if self.docker_service_running {
            0nat
        } else {
            1nat
        });
        let group = started + (if self.user_in_docker_group {
            0nat
        } else {
            1nat
        });
        Docker {
            repo_available: self.repo_available || repository <= done,
            docker_installed: self.docker_installed || packages <= done,
            docker_service_enabled: self.docker_service_enabled || enabled <= done,
            docker_service_running: self.docker_service_running || started <= done,
            user_in_docker_group: self.user_in_docker_group || group <= done,
        }
    }
}

/// An installation that is done has brought every part of Docker.
pub proof fn law_installed_docker_is_whole(docker: Docker, system: &SystemData, replies: Seq<Reply>)
    requires
        docker.installed(system, replies) is Done,
    ensures
        docker.installs(system) ==> docker.after_install(
            completed(replies, docker.plan(system).len()),
        ).is_whole(),
        !docker.installs(system) ==> docker.is_whole(),
{
    if docker.installs(system) {
        lemma_in_order_done(docker.plan(system), replies);
    }
}

impl DependencyInfo for Docker {
    open spec fn spec_name(&self) -> Seq<char> {
        "Docker"@
    }

    open spec fn spec_prerequisites(&self, os: OperatingSystem) -> Option<Seq<DependencyView>> {
        if os is Ubuntu2204 || os is Ubuntu2004 || os is Ubuntu1804 || os is PopOS2104 {
            all_declared(
                seq![
                    Curl::declared_on(os),
                    Gnupg::declared_on(os),
                    AptTransportHttps::declared_on(os),
                    CaCertificates::declared_on(os),
                ],
            )
        } else {
            None
        }
    }

    fn name(&self) -> (name: &'static str) {
        "Docker"
    }

    fn prerequisites(&self, os: OperatingSystem) -> (r: Result<Vec<Dependency>, DependencyError>) {
        if !os.is_debian_like() {
            return Err(DependencyError::UnsupportedOperatingSystem);
        }
        let mut list: Vec<Dependency> = Vec::new();
        list.push(declaration(Curl::singleton(), os)?);
        list.push(declaration(Gnupg::singleton(), os)?);
        list.push(declaration(AptTransportHttps::singleton(), os)?);
        list.push(declaration(CaCertificates::singleton(), os)?);
        assert(declarations(list@) =~= all_declared(
            seq![
                Curl::declared_on(os),
                Gnupg::declared_on(os),
                AptTransportHttps::declared_on(os),
                CaCertificates::declared_on(os),
            ],
        )->0);
        Ok(list)
    }
}

impl DependencyInstallable for Docker {
    /// Looks for the repository, the program, the service and the user's
    /// membership in the group, and notes each as soon as its reply is
    /// there.
    fn is_installed(&mut self, system: &SystemData, replies: &[Reply]) -> (r: Result<
        Next<InstallationStatus>,
        DependencyError,
    >)
        ensures
            step_of(r) == old(self).checked(system, replies@),
            *final(self) == old(self).after_check(system, replies@),
    {
        let os = system.operating_system;
        let ghost before = *self;
        let (probe, marker) = if os.is_ubuntu() {
            let probe = DCommand::new("apt-cache", &["policy", "docker-ce"]);
            assert(slices((["policy", "docker-ce"])@) =~= seq!["policy"@, "docker-ce"@]);
            (probe, "Candidate: 5:")
        } else if os.is_red_hat_like() {
            let probe = DCommand::new("dnf", &["list", "docker-ce"]);
            assert(slices((["list", "docker-ce"])@) =~= seq!["list"@, "docker-ce"@]);
            (probe, "docker-ce.x86_64")
        } else {
            return Err(DependencyError::UnsupportedOperatingSystem);
        };
        let repository = match answer_to(probe, replies, 0) {
            Err(e) => {
                return Err(e);
            },
            Ok(Next::Ask(request)) => {
                return Ok(Next::Ask(request));
            },
            Ok(Next::Done(output)) => output,
        };
        self.repo_available = contains(repository.stdout.as_str(), marker);
        if !self.repo_available {
            return Ok(Next::Done(InstallationStatus::NotInstalled));
        }
        let version = DCommand::new("docker", &["--version"]);
        assert(slices((["--version"])@) =~= seq!["--version"@]);
        match answer_to(version, replies, 1) {
            Err(e) => {
                return Err(e);
            },
            Ok(Next::Ask(request)) => {
                return Ok(Next::Ask(request));
            },
            Ok(Next::Done(_)) => {},
        }
        self.docker_installed = true;
        let is_enabled = DCommand::new("systemctl", &["is-enabled", "docker"]);
        assert(slices((["is-enabled", "docker"])@) =~= seq!["is-enabled"@, "docker"@]);
        let enabled = match answer_to(is_enabled, replies, 2) {
            Err(e) => {
                return Err(e);
            },
            Ok(Next::Ask(request)) => {
                return Ok(Next::Ask(request));
            },
            Ok(Next::Done(output)) => output,
        };
        self.docker_service_enabled = same_text(enabled.stdout.as_str(), "enabled");
        let is_active = DCommand::new("systemctl", &["is-active", "docker"]);
        assert(slices((["is-active", "docker"])@) =~= seq!["is-active"@, "docker"@]);
        let active = match answer_to(is_active, replies, 3) {
            Err(e) => {
                return Err(e);
            },
            Ok(Next::Ask(request)) => {
                return Ok(Next::Ask(request));
            },
            Ok(Next::Done(output)) => output,
        };
        self.docker_service_running = same_text(active.stdout.as_str(), "active");
        let user = system.current_user.as_str();
        let groups_of = DCommand::new("groups", &[user]);
        assert(slices(([user])@) =~= seq![system.current_user@]);
        let groups = match answer_to(groups_of, replies, 4) {
            Err(e) => {
                return Err(e);
            },
            Ok(Next::Ask(request)) => {
                return Ok(Next::Ask(request));
            },
            Ok(Next::Done(output)) => output,
        };
        self.user_in_docker_group = contains(groups.stdout.as_str(), "docker");
        if self.docker_service_enabled && self.docker_service_running
            && self.user_in_docker_group {
            Ok(Next::Done(InstallationStatus::FullyInstalled))
        } else {
            Ok(Next::Done(InstallationStatus::PartialInstall))
        }
    }

    /// Brings every part of Docker that the last check did not find. While
    /// a command is still asked for, what the check noted stays; once the
    /// installation is done or has given up, every part whose commands all
    /// ran is noted as there.
    fn install(&mut self, system: &SystemData, replies: &[Reply]) -> (r: Result<
        Next<()>,
        DependencyError,
    >)
        ensures
            step_of(r) == old(self).installed(system, replies@),
            *final(self) == (if step_of(r) is Ask || !old(self).installs(system) {
                *old(self)
            } else {
                old(self).after_install(completed(replies@, old(self).plan(system).len()))
            }),
    {
        let ghost before = *self;
        if !system.operating_system.is_debian_like() {
            return Err(DependencyError::UnsupportedOperatingSystem);
        }
        if self.repo_available && self.docker_installed && self.docker_service_enabled
            && self.docker_service_running && self.user_in_docker_group {
            return Ok(Next::Done(()));
        }
        let mut list: Vec<DCommand> = Vec::new();
        assert(commands_of(list@) =~= Seq::<DCommandView>::empty());
        let mut repository: usize = 0;
        if !self.repo_available {
            push_repository_commands(&mut list);
            repository = 5;
        }
        let mut packages = repository;
        if !self.docker_installed {
            let command = DCommand::new(
                "apt-get",
                &[
                    "install",
                    "-y",
                    "docker-ce",
                    "docker-ce-cli",
                    "containerd.io",
                    "docker-buildx-plugin",
                    "docker-compose-plugin",
                ],
            );
            assert(slices(
                ([
                    "install",
                    "-y",
                    "docker-ce",
                    "docker-ce-cli",
                    "containerd.io",
                    "docker-buildx-plugin",
                    "docker-compose-plugin",
                ])@,
            ) =~= packages_command().args);
            let ghost so_far = commands_of(list@);
            list.push(command);
            assert(commands_of(list@) =~= so_far + seq![packages_command()]);
            packages = packages + 1;
        }
        let mut enabled = packages;
        if !self.docker_service_enabled {
            let command = DCommand::new("systemctl", &["enable", "docker.service"]);
            assert(slices((["enable", "docker.service"])@) =~= enable_command().args);
            let ghost so_far = commands_of(list@);
            list.push(command);
            assert(commands_of(list@) =~= so_far + seq![enable_command()]);
            enabled = enabled + 1;
        }
        let mut started = enabled;
        if !self.docker_service_running {
            let command = DCommand::new("systemctl", &["start", "docker.service"]);
            assert(slices((["start", "docker.service"])@) =~= start_command().args);
            let ghost so_far = commands_of(list@);
            list.push(command);
            assert(commands_of(list@) =~= so_far + seq![start_command()]);
            started = started + 1;
        }
        let mut group = started;
        if !self.user_in_docker_group {
            let user = system.current_user.as_str();
            let command = DCommand::new("usermod", &["-aG", "docker", user]);
            assert(slices((["-aG", "docker", user])@) =~= group_command(
                system.current_user@,
            ).args);
            let ghost so_far = commands_of(list@);
            list.push(command);
            assert(commands_of(list@) =~= so_far + seq![group_command(system.current_user@)]);
            group = group + 1;
        }
        assert(commands_of(list@) =~= before.plan(system));
        let r = run_in_order(&list, replies);
        if let Ok(Next::Ask(_)) = r {
            return r;
        }
        let done = count_completed(replies, list.len());
        self.repo_available = self.repo_available || repository <= done;
        self.docker_installed = self.docker_installed || packages <= done;
        self.docker_service_enabled = self.docker_service_enabled || enabled <= done;
        self.docker_service_running = self.docker_service_running || started <= done;
        self.user_in_docker_group = self.user_in_docker_group || group <= done;
        r
    }
}

} // verus!
