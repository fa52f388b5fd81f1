use dependencies::system::{current_user_of, home_dir_of};
use dependencies::{ConfigStatus, DotfilesError, OperatingSystem, SystemData};

#[test]
fn known_systems_are_named() {
    let known = [
        ("Linux 22.04 Ubuntu", OperatingSystem::Ubuntu2204),
        ("Linux 20.04 Ubuntu", OperatingSystem::Ubuntu2004),
        ("Linux 18.04 Ubuntu", OperatingSystem::Ubuntu1804),
        ("Linux 38 Fedora Linux", OperatingSystem::Fedora38),
        ("Linux 9 Rocky", OperatingSystem::Rocky9),
        ("Linux 8 Rocky", OperatingSystem::Rocky8),
        ("Linux 21.04 Pop!_OS", OperatingSystem::PopOS2104),
    ];
    for (version, system) in known {
        let found = OperatingSystem::from_long_os_version(Some(version));
        assert!(matches!(found, Ok(os) if os == system), "{}", version);
    }
}

#[test]
fn an_unknown_system_comes_back_in_the_error() {
    let found = OperatingSystem::from_long_os_version(Some("Linux 38 Fedora"));
    assert!(matches!(found, Err(DotfilesError::UnknownOperatingSystem(v)) if v == "Linux 38 Fedora"));
    let found = OperatingSystem::from_long_os_version(Some(""));
    assert!(matches!(found, Err(DotfilesError::UnknownOperatingSystem(v)) if v.is_empty()));
}

#[test]
fn no_version_is_an_error_that_says_so() {
    let found = OperatingSystem::from_long_os_version(None);
    assert!(matches!(
        found,
        Err(DotfilesError::UnknownOperatingSystem(v)) if v == "Unable to determine operating system"
    ));
}

#[test]
fn families_of_systems() {
    assert!(OperatingSystem::Ubuntu2204.is_ubuntu());
    assert!(OperatingSystem::Ubuntu1804.is_debian_like());
    assert!(!OperatingSystem::PopOS2104.is_ubuntu());
    assert!(OperatingSystem::PopOS2104.is_debian_like());
    assert!(OperatingSystem::Fedora38.is_red_hat_like());
    assert!(OperatingSystem::Rocky8.is_red_hat_like());
    assert!(!OperatingSystem::Rocky9.is_debian_like());
    assert!(!OperatingSystem::Ubuntu2004.is_red_hat_like());
}

#[test]
fn home_dir_is_the_sixth_field() {
    let entry = "josiah:x:1000:1000:Josiah,,,:/home/josiah:/bin/zsh\n";
    assert_eq!(home_dir_of(entry), Some("/home/josiah".to_string()));
    assert_eq!(home_dir_of("a:b:c:d:e:f"), Some("f".to_string()));
    assert_eq!(home_dir_of("a:b:c:d:e"), None);
    assert_eq!(home_dir_of(""), None);
    assert_eq!(home_dir_of(":::::"), Some(String::new()));
}

#[test]
fn the_caller_of_sudo_is_the_user() {
    assert_eq!(current_user_of(Some("josiah".to_string()), "root".to_string()), "josiah");
    assert_eq!(current_user_of(None, "root".to_string()), "root");
}

#[test]
fn home_path_is_below_the_home_directory() {
    let system = SystemData {
        operating_system: OperatingSystem::Ubuntu2204,
        current_user: "josiah".to_string(),
        home_dir: "/home/josiah".to_string(),
        zshrc_base: String::new(),
        zsh_aliases: String::new(),
        p10k_config: String::new(),
        authorized_keys: vec![],
    };
    assert_eq!(system.home_path("/.zshrc"), "/home/josiah/.zshrc");
}

#[test]
fn config_status_of_a_file() {
    assert_eq!(ConfigStatus::of(false, false), ConfigStatus::NotPresent);
    assert_eq!(ConfigStatus::of(false, true), ConfigStatus::NotPresent);
    assert_eq!(ConfigStatus::of(true, false), ConfigStatus::PresentIncorrect);
    assert_eq!(ConfigStatus::of(true, true), ConfigStatus::PresentCorrect);
    assert_eq!(ConfigStatus::default(), ConfigStatus::NotPresent);
    assert!(ConfigStatus::PresentCorrect.is_correct());
    assert!(!ConfigStatus::PresentIncorrect.is_correct());
}
