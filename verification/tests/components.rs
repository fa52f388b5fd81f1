use dependencies::{
    all_top_level, AptTransportHttps, AuthorizedKeys, Bat, CaCertificates, CommandError,
    ConfigStatus, Curl, Dependency, DependencyError, DependencyGraph, DependencyInfo,
    DependencyInstallable, Docker, Firefox, Gcc, Git, Gnupg, InstallationStatus, Next, NodeJs,
    Nvm, OhMyZsh, OperatingSystem, Output, PackageCacheRefresh, Pip3, PowerLevel10k, Python3,
    Python3Dev, Reply, Request, Rust, SetupTools, SystemData, TheFuck, Tmux, Tokei, VsCode,
    Yarn, Zsh, ZshAliases, ZshAutoSuggestions, ZshSyntaxHighlighting, Zshrc,
};

fn system(os: OperatingSystem) -> SystemData {
    SystemData {
        operating_system: os,
        current_user: "josiah".to_string(),
        home_dir: "/home/josiah".to_string(),
        zshrc_base: "# base\nexport ZSH=~/.oh-my-zsh\n".to_string(),
        zsh_aliases: "alias ll='ls -l'\nalias gs='git status'\n".to_string(),
        p10k_config: "# p10k\n".to_string(),
        authorized_keys: vec!["ssh-ed25519 AAAA one".to_string(), "ssh-rsa BBBB two".to_string()],
    }
}

fn ubuntu() -> SystemData {
    system(OperatingSystem::Ubuntu2204)
}

fn describe(request: &Request) -> String {
    match request {
        Request::Run(command) => {
            let (program, arguments) = command.invocation("josiah");
            format!("run {} {:?}", program, arguments)
        }
        Request::PathExists(path) => format!("exists {}", path),
        Request::ReadFile(path) => format!("read {}", path),
        Request::WriteFile(path, contents) => format!("write {} {:?}", path, contents),
        Request::Backup(path) => format!("backup {}", path),
        Request::CreateFile(path) => format!("create {}", path),
        Request::CopyFile(from, to) => format!("copy {} {}", from, to),
        Request::Download(url, to) => format!("download {} {}", url, to),
    }
}

fn root(line: &str) -> String {
    format!("run sh {:?}", vec!["-c".to_string(), line.to_string()])
}

fn ok(stdout: &str) -> Reply {
    Reply::Ran(Ok(Output {
        success: true,
        stdout: stdout.to_string(),
        stderr: String::new(),
    }))
}

fn unsuccessful() -> Reply {
    Reply::Ran(Ok(Output {
        success: false,
        stdout: String::new(),
        stderr: "no".to_string(),
    }))
}

fn failed_as_command() -> Reply {
    Reply::Ran(Err(CommandError::CommandFailed(Output {
        success: false,
        stdout: String::new(),
        stderr: String::new(),
    })))
}

fn io_error() -> Reply {
    Reply::Ran(Err(CommandError::IoError("cannot start".to_string())))
}

fn text(contents: &str) -> Reply {
    Reply::Text(Ok(contents.to_string()))
}

fn done() -> Reply {
    Reply::Finished(Ok(()))
}

/// Runs a check against the given replies and gives the requests that it
/// made and how it ended.
fn check<C: DependencyInstallable>(
    component: &mut C,
    system: &SystemData,
    script: Vec<Reply>,
) -> (Vec<String>, Result<InstallationStatus, DependencyError>) {
    let mut replies: Vec<Reply> = Vec::new();
    let mut asked = Vec::new();
    let mut script = script.into_iter();
    loop {
        match component.is_installed(system, &replies) {
            Err(e) => return (asked, Err(e)),
            Ok(Next::Done(status)) => return (asked, Ok(status)),
            Ok(Next::Ask(request)) => {
                asked.push(describe(&request));
                replies.push(script.next().expect("the check asked for more than expected"));
            }
        }
    }
}

/// Runs an installation against the given replies and gives the requests
/// that it made and how it ended.
fn install<C: DependencyInstallable>(
    component: &mut C,
    system: &SystemData,
    script: Vec<Reply>,
) -> (Vec<String>, Result<(), DependencyError>) {
    let mut replies: Vec<Reply> = Vec::new();
    let mut asked = Vec::new();
    let mut script = script.into_iter();
    loop {
        match component.install(system, &replies) {
            Err(e) => return (asked, Err(e)),
            Ok(Next::Done(())) => return (asked, Ok(())),
            Ok(Next::Ask(request)) => {
                asked.push(describe(&request));
                replies.push(script.next().expect("the installation asked for more than expected"));
            }
        }
    }
}

fn names(list: &[Dependency]) -> Vec<String> {
    list.iter().map(|d| d.name().to_string()).collect()
}

#[test]
fn names_of_the_components() {
    assert_eq!(AptTransportHttps::singleton().name(), "apt-transport-https");
    assert_eq!(AuthorizedKeys::singleton().name(), "authorized_keys");
    assert_eq!(Bat::singleton().name(), "bat");
    assert_eq!(CaCertificates::singleton().name(), "ca-certificates");
    assert_eq!(Curl::singleton().name(), "curl");
    assert_eq!(Docker::singleton().name(), "Docker");
    assert_eq!(Firefox::singleton().name(), "firefox");
    assert_eq!(Gcc::singleton().name(), "gcc");
    assert_eq!(Git::singleton().name(), "git");
    assert_eq!(Gnupg::singleton().name(), "GnuPG");
    assert_eq!(NodeJs::singleton().name(), "nodejs");
    assert_eq!(Nvm::singleton().name(), "nvm");
    assert_eq!(OhMyZsh::singleton().name(), "oh-my-zsh");
    assert_eq!(PackageCacheRefresh::singleton().name(), "package-cache-refresh");
    assert_eq!(Pip3::singleton().name(), "pip3");
    assert_eq!(PowerLevel10k::singleton().name(), "powerlevel10k");
    assert_eq!(Python3::singleton().name(), "python3");
    assert_eq!(Python3Dev::singleton().name(), "python3-dev");
    assert_eq!(Rust::singleton().name(), "rust");
    assert_eq!(SetupTools::singleton().name(), "setuptools");
    assert_eq!(TheFuck::singleton().name(), "the-fuck");
    assert_eq!(Tmux::singleton().name(), "tmux");
    assert_eq!(Tokei::singleton().name(), "tokei");
    assert_eq!(VsCode::singleton().name(), "vscode");
    assert_eq!(Yarn::singleton().name(), "yarn");
    assert_eq!(Zsh::singleton().name(), "zsh");
    assert_eq!(ZshAliases::singleton().name(), "zsh_aliases");
    assert_eq!(ZshAutoSuggestions::singleton().name(), "zsh_auto_suggestions");
    assert_eq!(ZshSyntaxHighlighting::singleton().name(), "zsh_syntax_highlighting");
    assert_eq!(Zshrc::singleton().name(), "zshrc");
}

#[test]
fn prerequisites_of_the_components() {
    let os = OperatingSystem::Ubuntu2204;
    let of = |list: Result<Vec<Dependency>, DependencyError>| names(&list.unwrap());
    assert!(PackageCacheRefresh::singleton().prerequisites(os).unwrap().is_empty());
    assert!(VsCode::singleton().prerequisites(os).unwrap().is_empty());
    assert!(AuthorizedKeys::singleton().prerequisites(os).unwrap().is_empty());
    assert_eq!(of(Git::singleton().prerequisites(os)), ["package-cache-refresh"]);
    assert_eq!(of(Pip3::singleton().prerequisites(os)), ["package-cache-refresh", "python3"]);
    assert_eq!(
        of(SetupTools::singleton().prerequisites(os)),
        ["package-cache-refresh", "python3", "python3-dev"]
    );
    assert_eq!(
        of(TheFuck::singleton().prerequisites(os)),
        ["pip3", "python3", "setuptools", "python3-dev"]
    );
    assert_eq!(of(Bat::singleton().prerequisites(os)), ["rust", "gcc"]);
    assert_eq!(of(Tokei::singleton().prerequisites(os)), ["rust"]);
    assert_eq!(of(Rust::singleton().prerequisites(os)), ["package-cache-refresh", "curl"]);
    assert_eq!(of(Nvm::singleton().prerequisites(os)), ["package-cache-refresh", "curl"]);
    assert_eq!(of(NodeJs::singleton().prerequisites(os)), ["package-cache-refresh", "nvm"]);
    assert_eq!(of(Yarn::singleton().prerequisites(os)), ["nodejs"]);
    assert_eq!(of(Zsh::singleton().prerequisites(os)), ["tmux", "git", "package-cache-refresh"]);
    assert_eq!(of(Zshrc::singleton().prerequisites(os)), ["zsh"]);
    assert_eq!(of(ZshAliases::singleton().prerequisites(os)), ["zsh"]);
    assert_eq!(of(OhMyZsh::singleton().prerequisites(os)), ["git", "zsh"]);
    assert_eq!(of(PowerLevel10k::singleton().prerequisites(os)), ["zsh", "oh-my-zsh"]);
    assert_eq!(
        of(ZshAutoSuggestions::singleton().prerequisites(os)),
        ["zsh", "oh-my-zsh", "git"]
    );
    assert_eq!(
        of(ZshSyntaxHighlighting::singleton().prerequisites(os)),
        ["zsh", "oh-my-zsh", "git"]
    );
    assert_eq!(
        of(Docker::singleton().prerequisites(os)),
        ["curl", "GnuPG", "apt-transport-https", "ca-certificates"]
    );
    // the declarations carry what is required further down
    let zshrc = Zshrc::singleton().prerequisites(os).unwrap();
    assert_eq!(names(zshrc[0].prerequisites()), ["tmux", "git", "package-cache-refresh"]);
}

#[test]
fn docker_is_declared_for_apt_systems_only() {
    assert!(Docker::singleton().prerequisites(OperatingSystem::PopOS2104).is_ok());
    for os in [OperatingSystem::Fedora38, OperatingSystem::Rocky8, OperatingSystem::Rocky9] {
        let r = Docker::singleton().prerequisites(os);
        assert!(matches!(r, Err(DependencyError::UnsupportedOperatingSystem)));
    }
}

#[test]
fn optional_components() {
    let os = OperatingSystem::Ubuntu2204;
    assert!(Git::singleton().optional(os).unwrap().is_empty());
    let yarn = Yarn::singleton().optional(os).unwrap();
    assert_eq!(yarn.len(), 1);
    assert_eq!(yarn[0].0, "zshrc");
    assert_eq!(yarn[0].1, "Will automatically load zshrc");
    assert_eq!(yarn[0].2.name(), "zshrc");
    let nvm = Nvm::singleton().optional(os).unwrap();
    assert_eq!(nvm.len(), 1);
    assert_eq!(nvm[0].2.name(), "zshrc");
}

#[test]
fn top_level_components() {
    let list = all_top_level(OperatingSystem::Ubuntu2204).unwrap();
    assert_eq!(
        names(&list),
        [
            "authorized_keys",
            "bat",
            "Docker",
            "firefox",
            "git",
            "nodejs",
            "oh-my-zsh",
            "powerlevel10k",
            "the-fuck",
            "tmux",
            "tokei",
            "vscode",
            "zsh_aliases",
            "zsh_auto_suggestions",
            "zsh_syntax_highlighting",
            "zsh",
            "zshrc",
        ]
    );
    let r = all_top_level(OperatingSystem::Fedora38);
    assert!(matches!(r, Err(DependencyError::UnsupportedOperatingSystem)));
}

#[test]
fn the_catalog_makes_a_layered_graph() {
    let mut graph = DependencyGraph::new();
    let list = all_top_level(OperatingSystem::Ubuntu2004).unwrap();
    assert_eq!(graph.add_nodes(list), Ok(()));
    assert_eq!(graph.len(), 29);
    assert!(graph.is_top_level("Docker"));
    assert!(graph.is_top_level("zsh"));
    assert!(!graph.is_top_level("curl"));
    assert!(!graph.is_top_level("package-cache-refresh"));
    let view = graph.build_dependency_view();
    let placed: usize = view.iter().map(|layer| layer.len()).sum();
    assert_eq!(placed, graph.len());
    let first: Vec<&str> = view[0].iter().map(|id| graph.node(*id).unwrap().name()).collect();
    assert!(first.contains(&"Docker"));
    assert!(first.contains(&"vscode"));
    assert!(first.contains(&"authorized_keys"));
    assert!(!first.contains(&"git"));
    let last: Vec<&str> = view[view.len() - 1].iter().map(|id| graph.node(*id).unwrap().name()).collect();
    assert_eq!(last, ["package-cache-refresh"]);
}

#[test]
fn git_is_found_when_the_probe_fails_as_a_command() {
    let mut git = Git::default();
    let (asked, status) = check(&mut git, &ubuntu(), vec![failed_as_command()]);
    assert_eq!(asked, [root("which git")]);
    assert!(matches!(status, Ok(InstallationStatus::FullyInstalled)));
    assert!(git.git_available);
}

#[test]
fn git_is_not_found_when_the_probe_runs() {
    let mut git = Git { git_available: true };
    let (_, status) = check(&mut git, &ubuntu(), vec![ok("/usr/bin/git\n")]);
    assert!(matches!(status, Ok(InstallationStatus::NotInstalled)));
    assert!(!git.git_available);
    let (_, status) = check(&mut git, &ubuntu(), vec![io_error()]);
    assert!(matches!(status, Ok(InstallationStatus::NotInstalled)));
}

#[test]
fn a_reply_of_another_kind_is_an_error() {
    let mut git = Git::default();
    let (_, status) = check(&mut git, &ubuntu(), vec![Reply::Exists(true)]);
    assert!(matches!(status, Err(DependencyError::Unknown)));
    assert!(!git.git_available);
}

#[test]
fn git_is_installed_with_apt() {
    let mut git = Git::default();
    let (asked, r) = install(&mut git, &ubuntu(), vec![ok("")]);
    assert_eq!(asked, [root("apt-get install -y git")]);
    assert!(r.is_ok());
    assert!(git.git_available);
    // nothing is run for what is there
    let (asked, r) = install(&mut git, &ubuntu(), vec![]);
    assert!(asked.is_empty());
    assert!(r.is_ok());
}

#[test]
fn git_cannot_be_installed_elsewhere() {
    for os in [OperatingSystem::PopOS2104, OperatingSystem::Fedora38, OperatingSystem::Rocky9] {
        let mut git = Git::default();
        let (asked, r) = install(&mut git, &system(os), vec![]);
        assert!(asked.is_empty());
        assert!(matches!(r, Err(DependencyError::UnsupportedOperatingSystem)));
        assert!(!git.git_available);
    }
}

#[test]
fn a_command_that_cannot_run_ends_the_installation() {
    let mut git = Git::default();
    let (asked, r) = install(&mut git, &ubuntu(), vec![io_error()]);
    assert_eq!(asked.len(), 1);
    assert!(matches!(r, Err(DependencyError::IoError(why)) if why == "cannot start"));
    assert!(!git.git_available);
    // a command that ran without success does not
    let (_, r) = install(&mut git, &ubuntu(), vec![unsuccessful()]);
    assert!(r.is_ok());
    assert!(git.git_available);
}

#[test]
fn plain_packages() {
    let mut apt = AptTransportHttps::default();
    assert_eq!(check(&mut apt, &ubuntu(), vec![ok("")]).0, [root("which apt-transport-https")]);
    assert_eq!(
        install(&mut apt, &ubuntu(), vec![ok("")]).0,
        [root("apt-get install -y apt-transport-https")]
    );
    let mut curl = Curl::default();
    assert_eq!(check(&mut curl, &ubuntu(), vec![ok("")]).0, [root("which curl")]);
    assert_eq!(install(&mut curl, &ubuntu(), vec![ok("")]).0, [root("apt-get install -y curl")]);
    let mut gcc = Gcc::default();
    assert_eq!(check(&mut gcc, &ubuntu(), vec![ok("")]).0, [root("which gcc")]);
    assert_eq!(install(&mut gcc, &ubuntu(), vec![ok("")]).0, [root("apt-get install -y gcc")]);
    let mut gnupg = Gnupg::default();
    assert_eq!(check(&mut gnupg, &ubuntu(), vec![ok("")]).0, [root("which gpg")]);
    assert_eq!(install(&mut gnupg, &ubuntu(), vec![ok("")]).0, [root("apt-get install -y gnupg")]);
    let mut tmux = Tmux::default();
    assert_eq!(check(&mut tmux, &ubuntu(), vec![ok("")]).0, [root("which tmux")]);
    assert_eq!(install(&mut tmux, &ubuntu(), vec![ok("")]).0, [root("apt-get install -y tmux")]);
    let mut python = Python3::default();
    assert_eq!(check(&mut python, &ubuntu(), vec![ok("")]).0, [root("which python3")]);
    assert_eq!(
        install(&mut python, &ubuntu(), vec![ok("")]).0,
        [root("apt-get install -y python3")]
    );
    let mut pip = Pip3::default();
    assert_eq!(check(&mut pip, &ubuntu(), vec![ok("")]).0, [root("which pip3")]);
    assert_eq!(
        install(&mut pip, &ubuntu(), vec![ok("")]).0,
        [root("apt-get install -y python3-pip")]
    );
    let mut setuptools = SetupTools::default();
    assert_eq!(
        check(&mut setuptools, &ubuntu(), vec![ok("")]).0,
        [root("python3 -m pip show setuptools")]
    );
    assert_eq!(
        install(&mut setuptools, &ubuntu(), vec![ok("")]).0,
        [root("apt-get install -y python3-setuptools")]
    );
    let mut node = NodeJs::default();
    assert_eq!(check(&mut node, &ubuntu(), vec![ok("")]).0, [root("which node")]);
    assert_eq!(
        install(&mut node, &system(OperatingSystem::Rocky8), vec![ok("")]).0,
        [root("nvm install node")]
    );
    assert!(node.nodejs_available);
}

#[test]
fn certificates_are_installed_and_updated() {
    let mut certificates = CaCertificates::default();
    let (asked, r) = install(&mut certificates, &ubuntu(), vec![ok(""), ok("")]);
    assert_eq!(
        asked,
        [root("apt-get install -y ca-certificates"), root("update-ca-certificates ")]
    );
    assert!(r.is_ok());
    assert!(certificates.ca_certificates_available);
    let mut certificates = CaCertificates::default();
    let (asked, r) = install(&mut certificates, &ubuntu(), vec![ok(""), io_error()]);
    assert_eq!(asked.len(), 2);
    assert!(r.is_err());
    assert!(!certificates.ca_certificates_available);
}

#[test]
fn firefox_comes_from_the_systems_package_manager() {
    let mut firefox = Firefox::default();
    let (asked, _) = install(&mut firefox, &system(OperatingSystem::PopOS2104), vec![ok("")]);
    assert_eq!(asked, [root("apt-get install -y firefox")]);
    let mut firefox = Firefox::default();
    let (asked, r) = install(&mut firefox, &system(OperatingSystem::Fedora38), vec![ok("")]);
    assert_eq!(asked, [root("dnf install -y firefox")]);
    assert!(r.is_ok());
    assert!(firefox.firefox_available);
}

#[test]
fn the_package_cache_is_fresh_once_refreshed() {
    let mut cache = PackageCacheRefresh::default();
    let (asked, status) = check(&mut cache, &ubuntu(), vec![]);
    assert!(asked.is_empty());
    assert!(matches!(status, Ok(InstallationStatus::NotInstalled)));
    let (asked, r) = install(&mut cache, &ubuntu(), vec![ok("")]);
    assert_eq!(asked, [root("apt-get update")]);
    assert!(r.is_ok());
    assert!(cache.updated);
    let (_, status) = check(&mut cache, &ubuntu(), vec![]);
    assert!(matches!(status, Ok(InstallationStatus::FullyInstalled)));
    let mut cache = PackageCacheRefresh::default();
    let (asked, _) = install(&mut cache, &system(OperatingSystem::Rocky9), vec![ok("")]);
    assert_eq!(asked, [root("dnf clean expire-cache")]);
    let mut cache = PackageCacheRefresh::default();
    let (_, r) = install(&mut cache, &system(OperatingSystem::PopOS2104), vec![]);
    assert!(matches!(r, Err(DependencyError::UnsupportedOperatingSystem)));
    assert!(!cache.updated);
}

#[test]
fn the_python_headers_are_asked_of_dpkg() {
    let mut headers = Python3Dev::default();
    let (asked, status) = check(&mut headers, &ubuntu(), vec![ok("Status: install ok")]);
    assert_eq!(asked, [root("dpkg -s python3-dev")]);
    assert!(matches!(status, Ok(InstallationStatus::FullyInstalled)));
    assert!(headers.python3_dev_available);
    let (_, status) = check(&mut headers, &ubuntu(), vec![unsuccessful()]);
    assert!(matches!(status, Ok(InstallationStatus::NotInstalled)));
    assert!(!headers.python3_dev_available);
    let (_, status) = check(&mut headers, &ubuntu(), vec![io_error()]);
    assert!(matches!(status, Err(DependencyError::IoError(_))));
    let (asked, status) = check(&mut headers, &system(OperatingSystem::Fedora38), vec![]);
    assert!(asked.is_empty());
    assert!(matches!(status, Err(DependencyError::UnsupportedOperatingSystem)));
    let (asked, r) = install(&mut headers, &ubuntu(), vec![ok("")]);
    assert_eq!(asked, [root("apt-get install -y python3-dev")]);
    assert!(r.is_ok());
    assert!(!headers.python3_dev_available);
}

#[test]
fn a_program_is_found_at_its_path_or_by_its_probe() {
    let mut thefuck = TheFuck::default();
    let (asked, status) = check(&mut thefuck, &ubuntu(), vec![Reply::Exists(true), ok("")]);
    assert_eq!(asked, ["exists /usr/local/bin/thefuck".to_string(), root("which thefuck")]);
    assert!(matches!(status, Ok(InstallationStatus::FullyInstalled)));
    assert!(thefuck.the_fuck_available);
    let (_, status) = check(&mut thefuck, &ubuntu(), vec![Reply::Exists(false), ok("")]);
    assert!(matches!(status, Ok(InstallationStatus::NotInstalled)));
    assert!(!thefuck.the_fuck_available);
    let (_, status) =
        check(&mut thefuck, &ubuntu(), vec![Reply::Exists(false), failed_as_command()]);
    assert!(matches!(status, Ok(InstallationStatus::FullyInstalled)));
    let (_, status) = check(&mut thefuck, &ubuntu(), vec![ok("")]);
    assert!(matches!(status, Err(DependencyError::Unknown)));
    let mut thefuck = TheFuck::default();
    let (asked, _) = install(&mut thefuck, &ubuntu(), vec![ok("")]);
    assert_eq!(asked, [root("python3 -m pip3 install thefuck --user")]);
}

#[test]
fn cargo_programs() {
    let mut bat = Bat::default();
    let (asked, _) = check(&mut bat, &ubuntu(), vec![Reply::Exists(false), ok("")]);
    assert_eq!(asked, ["exists /home/josiah/.cargo/bin/bat".to_string(), root("which bat")]);
    let (asked, r) = install(&mut bat, &ubuntu(), vec![ok("")]);
    assert_eq!(
        asked,
        [format!(
            "run sudo {:?}",
            ["-u", "josiah", "sh", "-c", "/home/josiah/.cargo/bin/cargo install bat"]
        )]
    );
    assert!(r.is_ok());
    assert!(bat.bat_available);
    let mut tokei = Tokei::default();
    let (asked, _) = check(&mut tokei, &ubuntu(), vec![Reply::Exists(true), ok("")]);
    assert_eq!(asked, ["exists /home/josiah/.cargo/bin/tokei".to_string(), root("which tokei")]);
    assert!(tokei.tokei_available);
    let mut tokei = Tokei::default();
    let (asked, _) = install(&mut tokei, &ubuntu(), vec![ok("")]);
    assert_eq!(asked, [root("cargo install tokei")]);
}

#[test]
fn the_rust_toolchain() {
    let mut rust = Rust::default();
    let (asked, status) = check(&mut rust, &ubuntu(), vec![ok(""), ok("")]);
    assert_eq!(asked, [root("which rustc"), root("which cargo")]);
    assert!(matches!(status, Ok(InstallationStatus::FullyInstalled)));
    assert!(rust.rust_available && rust.cargo_available);
    let (_, status) = check(&mut rust, &ubuntu(), vec![unsuccessful(), unsuccessful()]);
    assert!(matches!(status, Ok(InstallationStatus::NotInstalled)));
    let (_, status) = check(&mut rust, &ubuntu(), vec![unsuccessful(), ok("")]);
    assert!(matches!(status, Ok(InstallationStatus::PartialInstall)));
    assert!(!rust.rust_available && rust.cargo_available);
    let (_, status) = check(&mut rust, &ubuntu(), vec![ok(""), unsuccessful()]);
    assert!(matches!(
        status,
        Err(DependencyError::DependencyFailed(why))
            if why == "This system seems to have rustc installed, but not cargo. This is an unresolvable error."
    ));
    assert!(rust.rust_available && !rust.cargo_available);
    let (asked, r) = install(&mut rust, &ubuntu(), vec![ok("")]);
    assert_eq!(
        asked,
        [format!(
            "run sudo {:?}",
            ["-u", "josiah", "sh", "-c", "curl https://sh.rustup.rs -sSf | sh -s -- -y"]
        )]
    );
    assert!(r.is_ok());
    assert!(rust.rust_available && rust.cargo_available);
}

#[test]
fn the_z_shell_is_checked_as_program_and_as_shell() {
    let mut zsh = Zsh::new();
    let (asked, status) = check(&mut zsh, &ubuntu(), vec![failed_as_command(), ok("/usr/bin/zsh\n")]);
    assert_eq!(asked, [root("which zsh"), root("echo $SHELL")]);
    assert!(matches!(status, Ok(InstallationStatus::FullyInstalled)));
    assert!(zsh.zsh_base_installed && zsh.zsh_chsh);
    let (_, status) = check(&mut zsh, &ubuntu(), vec![failed_as_command(), ok("/bin/bash\n")]);
    assert!(matches!(status, Ok(InstallationStatus::FullyInstalled)));
    assert!(zsh.zsh_base_installed && !zsh.zsh_chsh);
    let (_, status) = check(&mut zsh, &ubuntu(), vec![failed_as_command(), unsuccessful()]);
    assert!(matches!(status, Ok(InstallationStatus::PartialInstall)));
    let (_, status) = check(&mut zsh, &ubuntu(), vec![ok(""), ok("zsh")]);
    assert!(matches!(status, Ok(InstallationStatus::NotInstalled)));
    assert!(!zsh.zsh_base_installed && zsh.zsh_chsh);
}

#[test]
fn the_z_shell_is_installed_in_two_steps() {
    let nobody = |line: &str| format!("run sudo {:?}", ["-u", "", "sh", "-c", line]);
    let mut zsh = Zsh::new();
    let (asked, r) = install(&mut zsh, &ubuntu(), vec![ok(""), ok("")]);
    assert_eq!(asked, [root("apt-get install -y zsh"), nobody("chsh -s /usr/bin/zsh")]);
    assert!(r.is_ok());
    assert!(zsh.zsh_base_installed && zsh.zsh_chsh);
    let mut zsh = Zsh::new();
    let (asked, _) = install(&mut zsh, &system(OperatingSystem::Fedora38), vec![ok(""), ok("")]);
    assert_eq!(asked, [nobody("dnf install -y zsh"), nobody("chsh -s /usr/bin/zsh")]);
    let mut zsh = Zsh::new();
    let (asked, r) = install(&mut zsh, &system(OperatingSystem::Rocky9), vec![]);
    assert!(asked.is_empty());
    assert!(matches!(r, Err(DependencyError::UnsupportedOperatingSystem)));
    // the shell alone is changed where the program is there
    let mut zsh = Zsh { zsh_base_installed: true, zsh_chsh: false };
    let (asked, r) = install(&mut zsh, &system(OperatingSystem::Rocky9), vec![ok("")]);
    assert_eq!(asked, [nobody("chsh -s /usr/bin/zsh")]);
    assert!(r.is_ok());
    // what was done before a failure is noted
    let mut zsh = Zsh::new();
    let (_, r) = install(&mut zsh, &ubuntu(), vec![ok(""), io_error()]);
    assert!(r.is_err());
    assert!(zsh.zsh_base_installed && !zsh.zsh_chsh);
    let mut zsh = Zsh::new();
    let (_, r) = install(&mut zsh, &ubuntu(), vec![io_error()]);
    assert!(r.is_err());
    assert!(!zsh.zsh_base_installed && !zsh.zsh_chsh);
}

#[test]
fn clones() {
    let mut framework = OhMyZsh::default();
    let (asked, status) = check(&mut framework, &ubuntu(), vec![Reply::Exists(true)]);
    assert_eq!(asked, ["exists /home/josiah/.oh-my-zsh"]);
    assert!(matches!(status, Ok(InstallationStatus::FullyInstalled)));
    let (asked, _) = install(&mut framework, &ubuntu(), vec![]);
    assert!(asked.is_empty());
    let mut framework = OhMyZsh::default();
    let (asked, r) = install(&mut framework, &ubuntu(), vec![ok("")]);
    assert_eq!(
        asked,
        [root("git clone --depth=1 https://github.com/ohmyzsh/ohmyzsh /home/josiah/.oh-my-zsh")]
    );
    assert!(r.is_ok());
    assert!(framework.ohmyzsh_installed);
    // the plugins are cloned whatever was found
    let mut suggestions = ZshAutoSuggestions { zsh_auto_suggestions_available: true };
    let (asked, _) = install(&mut suggestions, &ubuntu(), vec![ok("")]);
    assert_eq!(
        asked,
        [root(
            "git clone --depth=1 https://github.com/zsh-users/zsh-autosuggestions /home/josiah/.oh-my-zsh/custom/plugins/zsh-autosuggestions"
        )]
    );
    let mut highlighting = ZshSyntaxHighlighting::default();
    let (asked, status) = check(&mut highlighting, &ubuntu(), vec![Reply::Exists(false)]);
    assert_eq!(asked, ["exists /home/josiah/.oh-my-zsh/custom/plugins/zsh-syntax-highlighting"]);
    assert!(matches!(status, Ok(InstallationStatus::NotInstalled)));
    let (asked, _) = install(&mut highlighting, &ubuntu(), vec![ok("")]);
    assert_eq!(
        asked,
        [root(
            "git clone --depth=1 https://github.com/zsh-users/zsh-syntax-highlighting.git /home/josiah/.oh-my-zsh/custom/plugins/zsh-syntax-highlighting"
        )]
    );
    assert!(highlighting.zsh_syntax_highlighting_available);
}

#[test]
fn zshrc_is_correct_where_its_head_is() {
    let system = ubuntu();
    let mut zshrc = Zshrc::default();
    let (asked, status) = check(&mut zshrc, &system, vec![Reply::Exists(false)]);
    assert_eq!(asked, ["exists /home/josiah/.zshrc"]);
    assert!(matches!(status, Ok(InstallationStatus::NotInstalled)));
    assert_eq!(zshrc.zshrc_available, ConfigStatus::NotPresent);
    let (asked, status) = check(
        &mut zshrc,
        &system,
        vec![Reply::Exists(true), text("# base\nexport ZSH=~/.oh-my-zsh\n")],
    );
    assert_eq!(asked, ["exists /home/josiah/.zshrc", "read /home/josiah/.zshrc"]);
    assert!(matches!(status, Ok(InstallationStatus::FullyInstalled)));
    assert_eq!(zshrc.zshrc_available, ConfigStatus::PresentCorrect);
    let (_, status) = check(&mut zshrc, &system, vec![Reply::Exists(true), text("# mine\n")]);
    assert!(matches!(status, Ok(InstallationStatus::NotInstalled)));
    assert_eq!(zshrc.zshrc_available, ConfigStatus::PresentIncorrect);
    let unreadable = Reply::Text(Err(DependencyError::IoError("denied".to_string())));
    let (_, status) = check(&mut zshrc, &system, vec![Reply::Exists(true), unreadable]);
    assert!(matches!(status, Err(DependencyError::IoError(why)) if why == "denied"));
}

#[test]
fn zshrc_is_written_over_a_backup() {
    let system = ubuntu();
    let write = format!("write /home/josiah/.zshrc {:?}", system.zshrc_base);
    let mut zshrc = Zshrc::default();
    let (asked, r) = install(&mut zshrc, &system, vec![Reply::Exists(true), done(), done()]);
    assert_eq!(
        asked,
        [
            "exists /home/josiah/.zshrc".to_string(),
            "backup /home/josiah/.zshrc".to_string(),
            write.clone()
        ]
    );
    assert!(r.is_ok());
    let (asked, _) = install(&mut zshrc, &system, vec![Reply::Exists(false), done()]);
    assert_eq!(asked, ["exists /home/josiah/.zshrc".to_string(), write]);
    let failure = Reply::Finished(Err(DependencyError::IoError("full".to_string())));
    let (asked, r) = install(&mut zshrc, &system, vec![Reply::Exists(true), failure]);
    assert_eq!(asked.len(), 2);
    assert!(matches!(r, Err(DependencyError::IoError(why)) if why == "full"));
    let mut zshrc = Zshrc { zshrc_available: ConfigStatus::PresentCorrect };
    let (asked, r) = install(&mut zshrc, &system, vec![]);
    assert!(asked.is_empty());
    assert!(r.is_ok());
}

#[test]
fn aliases_are_correct_where_every_line_is_there() {
    let system = ubuntu();
    let mut aliases = ZshAliases::default();
    let (_, status) = check(
        &mut aliases,
        &system,
        vec![Reply::Exists(true), text("alias gs='git status'\nalias x=y\nalias ll='ls -l'\n")],
    );
    assert!(matches!(status, Ok(InstallationStatus::FullyInstalled)));
    assert_eq!(aliases.zsh_aliases_available, ConfigStatus::PresentCorrect);
    let (_, status) =
        check(&mut aliases, &system, vec![Reply::Exists(true), text("alias ll='ls -l'\n")]);
    assert!(matches!(status, Ok(InstallationStatus::NotInstalled)));
    assert_eq!(aliases.zsh_aliases_available, ConfigStatus::PresentIncorrect);
    let (_, status) = check(&mut aliases, &system, vec![Reply::Exists(false)]);
    assert!(matches!(status, Ok(InstallationStatus::NotInstalled)));
    assert_eq!(aliases.zsh_aliases_available, ConfigStatus::NotPresent);
}

#[test]
fn aliases_are_written_with_the_users_own_lines() {
    let system = ubuntu();
    let old = "alias ll='ls -l'\nalias mine=1\nalias other=2\n";
    let mut aliases = ZshAliases::default();
    let (asked, r) = install(
        &mut aliases,
        &system,
        vec![text(old), Reply::Exists(true), done(), done(), done(), done()],
    );
    assert_eq!(
        asked,
        [
            "read /home/josiah/.zsh_aliases".to_string(),
            "exists /home/josiah/.zsh_aliases".to_string(),
            "backup /home/josiah/.zsh_aliases".to_string(),
            format!("write /home/josiah/.zsh_aliases {:?}", system.zsh_aliases),
            format!("write /home/josiah/.zsh_aliases {:?}", format!("{}\nalias mine=1", old)),
            format!("write /home/josiah/.zsh_aliases {:?}", format!("{}\nalias other=2", old)),
        ]
    );
    assert!(r.is_ok());
    assert_eq!(aliases.zsh_aliases_available, ConfigStatus::PresentCorrect);
    // a file that cannot be read counts as empty
    let mut aliases = ZshAliases::default();
    let unreadable = Reply::Text(Err(DependencyError::IoError("none".to_string())));
    let (asked, r) = install(&mut aliases, &system, vec![unreadable, Reply::Exists(false), done()]);
    assert_eq!(asked.len(), 3);
    assert!(r.is_ok());
}

#[test]
fn keys_are_checked_and_added() {
    let system = ubuntu();
    let mut keys = AuthorizedKeys::default();
    let (asked, status) = check(&mut keys, &system, vec![Reply::Exists(false)]);
    assert_eq!(asked, ["exists /home/josiah/.ssh/authorized_keys"]);
    assert!(matches!(status, Ok(InstallationStatus::FullyInstalled)));
    assert_eq!(keys.authorized_keys_available, ConfigStatus::NotPresent);
    let (_, status) =
        check(&mut keys, &system, vec![Reply::Exists(true), text("ssh-rsa BBBB two\n")]);
    assert!(matches!(status, Ok(InstallationStatus::PartialInstall)));
    assert_eq!(keys.authorized_keys_available, ConfigStatus::PresentIncorrect);
    let (asked, r) = install(
        &mut keys,
        &system,
        vec![Reply::Exists(true), done(), done(), text("ssh-rsa BBBB two\n"), done()],
    );
    assert_eq!(
        asked,
        [
            "exists /home/josiah/.ssh/authorized_keys",
            "backup /home/josiah/.ssh/authorized_keys",
            "copy /home/josiah/.ssh/authorized_keys.bak /home/josiah/.ssh/authorized_keys",
            "read /home/josiah/.ssh/authorized_keys",
            "write /home/josiah/.ssh/authorized_keys \"ssh-rsa BBBB two\\n\\nssh-ed25519 AAAA one\"",
        ]
    );
    assert!(r.is_ok());
    let (asked, _) =
        install(&mut keys, &system, vec![Reply::Exists(false), done(), text(""), done()]);
    assert_eq!(
        asked,
        [
            "exists /home/josiah/.ssh/authorized_keys",
            "create /home/josiah/.ssh/authorized_keys",
            "read /home/josiah/.ssh/authorized_keys",
            "write /home/josiah/.ssh/authorized_keys \"\\nssh-ed25519 AAAA one\\nssh-rsa BBBB two\"",
        ]
    );
    let (_, status) = check(
        &mut keys,
        &system,
        vec![Reply::Exists(true), text("ssh-rsa BBBB two\nssh-ed25519 AAAA one")],
    );
    assert!(matches!(status, Ok(InstallationStatus::FullyInstalled)));
    assert_eq!(keys.authorized_keys_available, ConfigStatus::PresentCorrect);
}

#[test]
fn the_theme_has_a_file_and_a_clone() {
    let system = ubuntu();
    let mut theme = PowerLevel10k::default();
    let (asked, status) =
        check(&mut theme, &system, vec![Reply::Exists(true), text("# p10k\n"), Reply::Exists(true)]);
    assert_eq!(
        asked,
        [
            "exists /home/josiah/.p10k.zsh",
            "read /home/josiah/.p10k.zsh",
            "exists /home/josiah/.oh-my-zsh/custom/themes/powerlevel10k",
        ]
    );
    assert!(matches!(status, Ok(InstallationStatus::FullyInstalled)));
    let (_, status) = check(&mut theme, &system, vec![Reply::Exists(false), Reply::Exists(false)]);
    assert!(matches!(status, Ok(InstallationStatus::NotInstalled)));
    let (_, status) = check(&mut theme, &system, vec![Reply::Exists(false), Reply::Exists(true)]);
    assert!(matches!(status, Ok(InstallationStatus::PartialInstall)));
    assert_eq!(theme.p10k_config_available, ConfigStatus::NotPresent);
    assert!(theme.p10k_repo_installed);
    let mut theme = PowerLevel10k::default();
    let (asked, r) =
        install(&mut theme, &system, vec![Reply::Exists(true), done(), done(), ok("")]);
    assert_eq!(
        asked,
        [
            "exists /home/josiah/.p10k.zsh".to_string(),
            "backup /home/josiah/.p10k.zsh".to_string(),
            "write /home/josiah/.p10k.zsh \"# p10k\\n\"".to_string(),
            root(
                "git clone --depth=1 https://gitee.com/romkatv/powerlevel10k.git /home/josiah/.oh-my-zsh/custom/themes/powerlevel10k"
            ),
        ]
    );
    assert!(r.is_ok());
    assert_eq!(theme.p10k_config_available, ConfigStatus::PresentCorrect);
    assert!(theme.p10k_repo_installed);
    let mut theme = PowerLevel10k::default();
    let (_, r) = install(&mut theme, &system, vec![Reply::Exists(false), done(), io_error()]);
    assert!(r.is_err());
    assert_eq!(theme.p10k_config_available, ConfigStatus::PresentCorrect);
    assert!(!theme.p10k_repo_installed);
}

#[test]
fn docker_is_checked_part_by_part() {
    let mut docker = Docker::new();
    let (asked, status) = check(&mut docker, &ubuntu(), vec![ok("  Candidate: (none)")]);
    assert_eq!(asked, [root("apt-cache policy docker-ce")]);
    assert!(matches!(status, Ok(InstallationStatus::NotInstalled)));
    assert!(!docker.repo_available);
    let (asked, status) = check(
        &mut docker,
        &ubuntu(),
        vec![
            ok("  Candidate: 5:24.0.5"),
            ok("Docker version 24"),
            ok("enabled"),
            ok("active"),
            ok("josiah : josiah sudo docker"),
        ],
    );
    assert_eq!(
        asked,
        [
            root("apt-cache policy docker-ce"),
            root("docker --version"),
            root("systemctl is-enabled docker"),
            root("systemctl is-active docker"),
            root("groups josiah"),
        ]
    );
    assert!(matches!(status, Ok(InstallationStatus::FullyInstalled)));
    let mut docker = Docker::new();
    let (asked, status) = check(
        &mut docker,
        &system(OperatingSystem::Rocky9),
        vec![ok("docker-ce.x86_64 3:24"), ok(""), ok("enabled\n"), ok("active"), ok("wheel")],
    );
    assert_eq!(asked[0], root("dnf list docker-ce"));
    assert!(matches!(status, Ok(InstallationStatus::PartialInstall)));
    assert!(docker.repo_available && docker.docker_installed);
    assert!(!docker.docker_service_enabled);
    assert!(docker.docker_service_running);
    assert!(!docker.user_in_docker_group);
    let mut docker = Docker::new();
    let (asked, status) = check(&mut docker, &system(OperatingSystem::PopOS2104), vec![]);
    assert!(asked.is_empty());
    assert!(matches!(status, Err(DependencyError::UnsupportedOperatingSystem)));
    let mut docker = Docker::new();
    let (_, status) = check(&mut docker, &ubuntu(), vec![ok("Candidate: 5:1"), ok(""), io_error()]);
    assert!(matches!(status, Err(DependencyError::IoError(_))));
    assert!(docker.repo_available && docker.docker_installed);
}

#[test]
fn docker_is_installed_part_by_part() {
    let mut docker = Docker::new();
    let replies = (0..9).map(|_| ok("")).collect();
    let (asked, r) = install(&mut docker, &ubuntu(), replies);
    assert_eq!(asked.len(), 9);
    assert_eq!(asked[0], root("install -m 0755 -d /etc/apt/keyrings"));
    assert_eq!(
        asked[1],
        root("curl -fsSL https://download.docker.com/linux/ubuntu/gpg | sudo gpg --dearmor -o /etc/apt/keyrings/docker.gpg")
    );
    assert_eq!(asked[2], root("chmod a+r /etc/apt/keyrings/docker.gpg"));
    assert_eq!(
        asked[3],
        root("deb [arch=\"$(dpkg --print-architecture)\" signed-by=/etc/apt/keyrings/docker.gpg] https://download.docker.com/linux/ubuntu \"$(. /etc/os-release && echo \"$VERSION_CODENAME\")\" stable\" | sudo tee /etc/apt/sources.list.d/docker.list > /dev/null")
    );
    assert_eq!(asked[4], root("apt-get update"));
    assert_eq!(
        asked[5],
        root("apt-get install -y docker-ce docker-ce-cli containerd.io docker-buildx-plugin docker-compose-plugin")
    );
    assert_eq!(asked[6], root("systemctl enable docker.service"));
    assert_eq!(asked[7], root("systemctl start docker.service"));
    assert_eq!(asked[8], root("usermod -aG docker josiah"));
    assert!(r.is_ok());
    assert!(docker.repo_available && docker.docker_installed && docker.docker_service_enabled);
    assert!(docker.docker_service_running && docker.user_in_docker_group);
    let (asked, r) = install(&mut docker, &ubuntu(), vec![]);
    assert!(asked.is_empty());
    assert!(r.is_ok());
}

#[test]
fn docker_installs_only_what_is_missing() {
    let mut docker = Docker {
        repo_available: true,
        docker_installed: true,
        docker_service_enabled: false,
        docker_service_running: true,
        user_in_docker_group: false,
    };
    let (asked, r) = install(&mut docker, &system(OperatingSystem::PopOS2104), vec![ok(""), ok("")]);
    assert_eq!(asked, [root("systemctl enable docker.service"), root("usermod -aG docker josiah")]);
    assert!(r.is_ok());
    assert!(docker.docker_service_enabled && docker.user_in_docker_group);
    let mut docker = Docker::new();
    let (asked, r) = install(&mut docker, &system(OperatingSystem::Fedora38), vec![]);
    assert!(asked.is_empty());
    assert!(matches!(r, Err(DependencyError::UnsupportedOperatingSystem)));
}

#[test]
fn docker_notes_what_was_done_before_a_failure() {
    let mut docker = Docker::new();
    let mut replies: Vec<Reply> = (0..6).map(|_| ok("")).collect();
    replies.push(io_error());
    let (asked, r) = install(&mut docker, &ubuntu(), replies);
    assert_eq!(asked.len(), 7);
    assert!(r.is_err());
    assert!(docker.repo_available && docker.docker_installed);
    assert!(!docker.docker_service_enabled);
    assert!(!docker.docker_service_running && !docker.user_in_docker_group);
    let mut docker = Docker::new();
    let (_, r) = install(&mut docker, &ubuntu(), vec![ok(""), ok(""), io_error()]);
    assert!(r.is_err());
    assert!(!docker.repo_available && !docker.docker_installed);
}

#[test]
fn nvm_is_looked_for_in_the_shells_start_file() {
    let system = ubuntu();
    let mut nvm = Nvm::default();
    let (asked, status) = check(
        &mut nvm,
        &system,
        vec![ok(""), Reply::Exists(false), text("export NVM_DIR=\"$HOME/.nvm\"\n")],
    );
    assert_eq!(
        asked,
        [root("which nvm"), "exists /home/josiah/.zshrc".to_string(), "read /home/josiah/.bashrc".to_string()]
    );
    assert!(matches!(status, Ok(InstallationStatus::FullyInstalled)));
    assert!(nvm.nvm_available && nvm.nvm_path);
    let (asked, status) = check(
        &mut nvm,
        &system,
        vec![unsuccessful(), Reply::Exists(true), text(&system.zshrc_base), text("nothing")],
    );
    assert_eq!(asked.len(), 4);
    assert_eq!(asked[3], "read /home/josiah/.zshrc");
    assert!(matches!(status, Ok(InstallationStatus::NotInstalled)));
    assert!(!nvm.nvm_available && !nvm.nvm_path);
    let unreadable = Reply::Text(Err(DependencyError::IoError("none".to_string())));
    let (asked, status) = check(
        &mut nvm,
        &system,
        vec![ok(""), Reply::Exists(true), text("# other\n"), unreadable],
    );
    assert_eq!(asked[3], "read /home/josiah/.bashrc");
    assert!(matches!(status, Ok(InstallationStatus::PartialInstall)));
}

#[test]
fn nvm_is_installed_and_checked_again() {
    let system = ubuntu();
    let mut nvm = Nvm::default();
    let (asked, r) = install(
        &mut nvm,
        &system,
        vec![ok(""), ok(""), Reply::Exists(false), text("source ~/.nvm/nvm.sh")],
    );
    assert_eq!(
        asked,
        [
            root("curl -o- https://raw.githubusercontent.com/nvm-sh/nvm/v0.39.3/install.sh"),
            root("which nvm"),
            "exists /home/josiah/.zshrc".to_string(),
            "read /home/josiah/.bashrc".to_string(),
        ]
    );
    assert!(r.is_ok());
    assert!(nvm.nvm_available && nvm.nvm_path);
    let mut nvm = Nvm::default();
    let (_, r) =
        install(&mut nvm, &system, vec![ok(""), ok(""), Reply::Exists(false), text("nothing")]);
    assert!(matches!(
        r,
        Err(DependencyError::DependencyFailed(why))
            if why == "NVM path not found in .zshrc or .bashrc - should have been added by install script"
    ));
    assert!(nvm.nvm_available && !nvm.nvm_path);
    let mut nvm = Nvm { nvm_available: true, nvm_path: false };
    let (asked, _) = install(&mut nvm, &system, vec![ok(""), Reply::Exists(false), text("nvm")]);
    assert_eq!(asked[0], root("which nvm"));
    let mut nvm = Nvm { nvm_available: true, nvm_path: true };
    let (asked, r) = install(&mut nvm, &system, vec![]);
    assert!(asked.is_empty());
    assert!(r.is_ok());
}

#[test]
fn vscode_is_fetched_and_installed() {
    let mut code = VsCode::default();
    let (asked, status) = check(&mut code, &ubuntu(), vec![Reply::Exists(false), ok("")]);
    assert_eq!(asked, ["exists /usr/bin/code".to_string(), root("which code")]);
    assert!(matches!(status, Ok(InstallationStatus::NotInstalled)));
    let (asked, r) = install(&mut code, &ubuntu(), vec![done(), ok("")]);
    assert_eq!(
        asked,
        [
            "download https://code.visualstudio.com/sha/download?build=stable&os=linux-deb-x64 /tmp/vscode.osinstall".to_string(),
            root("dpkg -i /tmp/vscode.osinstall"),
        ]
    );
    assert!(r.is_ok());
    assert!(code.vscode_in_path);
    let mut code = VsCode::default();
    let failure = Reply::Finished(Err(DependencyError::DependencyFailed("offline".to_string())));
    let (asked, r) = install(&mut code, &system(OperatingSystem::Rocky8), vec![failure]);
    assert_eq!(
        asked,
        ["download https://code.visualstudio.com/sha/download?build=stable&os=linux-rpm-x64 /tmp/vscode.osinstall"]
    );
    assert!(matches!(r, Err(DependencyError::DependencyFailed(why)) if why == "offline"));
    assert!(!code.vscode_in_path);
}

#[test]
fn docker_and_zsh_start_with_nothing_found() {
    let docker = Docker::new();
    assert!(!docker.repo_available && !docker.docker_installed);
    assert!(!docker.docker_service_enabled && !docker.docker_service_running);
    assert!(!docker.user_in_docker_group);
    let zsh = Zsh::new();
    assert!(!zsh.zsh_base_installed && !zsh.zsh_chsh);
}

#[test]
fn yarn_is_looked_for_at_its_place_and_on_the_search_path() {
    let mut yarn = Yarn::default();
    let system = ubuntu();
    let mut replies: Vec<Reply> = Vec::new();
    let first = yarn.look_for(&system, &replies);
    assert!(matches!(&first, Ok(Next::Ask(request)) if describe(request) == "exists /home/josiah/.yarn/bin/yarn"));
    replies.push(Reply::Exists(false));
    let second = yarn.look_for(&system, &replies);
    assert!(matches!(&second, Ok(Next::Ask(request)) if describe(request) == root("which yarn")));
    replies.push(failed_as_command());
    assert!(matches!(yarn.look_for(&system, &replies), Ok(Next::Done(true))));
    assert!(yarn.yarn_available);
    assert!(!yarn.yarn_in_path);
}
