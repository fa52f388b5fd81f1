use dependencies::{AsUser, CommandError, DCommand, DependencyError, Output};

fn output(success: bool, stdout: &str, stderr: &str) -> Output {
    Output {
        success,
        stdout: stdout.to_string(),
        stderr: stderr.to_string(),
    }
}

#[test]
fn command_string_has_the_arguments_behind_a_blank() {
    let command = DCommand::new("apt-get", &["install", "-y", "git"]);
    assert_eq!(command.build_command_string(), "apt-get install -y git");
    let bare = DCommand::new("update-ca-certificates", &[]);
    assert_eq!(bare.build_command_string(), "update-ca-certificates ");
}

#[test]
fn command_line_shows_the_command() {
    let command = DCommand::new("which", &["git"]);
    assert_eq!(command.command_line(), "which git");
    let bare = DCommand::new("update-ca-certificates", &[]);
    assert_eq!(bare.command_line(), "update-ca-certificates");
}

#[test]
fn root_runs_in_a_shell() {
    let command = DCommand::new("which", &["git"]);
    let (program, arguments) = command.invocation("josiah");
    assert_eq!(program, "sh");
    assert_eq!(arguments, vec!["-c".to_string(), "which git".to_string()]);
}

#[test]
fn the_default_user_runs_through_sudo() {
    let command = DCommand::new("cargo", &["install", "bat"]).user(AsUser::DefaultUser);
    let (program, arguments) = command.invocation("josiah");
    assert_eq!(program, "sudo");
    assert_eq!(arguments, vec!["-u", "josiah", "sh", "-c", "cargo install bat"]);
}

#[test]
fn no_user_gives_sudo_an_empty_name() {
    let command = DCommand::new("chsh", &["-s", "/usr/bin/zsh"]).user(AsUser::DoNothing);
    let (program, arguments) = command.invocation("josiah");
    assert_eq!(program, "sudo");
    assert_eq!(arguments, vec!["-u", "", "sh", "-c", "chsh -s /usr/bin/zsh"]);
}

#[test]
fn a_command_is_silent_and_for_root_unless_told() {
    let command = DCommand::new("ls", &[]);
    assert!(!command.is_live_print());
    assert!(command.live_print(true).is_live_print());
    assert_eq!(AsUser::default(), AsUser::Root);
    let back = DCommand::new("ls", &["-l"]).user(AsUser::DefaultUser).user(AsUser::Root);
    assert_eq!(back.invocation("someone").0, "sh");
}

#[test]
fn a_copy_of_a_command_is_the_same_command() {
    let command = DCommand::new("git", &["clone", "--depth=1", "url", "path"])
        .user(AsUser::DefaultUser)
        .live_print(true);
    let copy = command.clone();
    assert_eq!(copy.build_command_string(), command.build_command_string());
    assert_eq!(copy.invocation("u"), command.invocation("u"));
    assert_eq!(copy.is_live_print(), command.is_live_print());
}

#[test]
fn output_message() {
    assert_eq!(
        output(true, "out", "err").message(),
        "success: true\nstdout: out\nstderr: err"
    );
    assert_eq!(output(false, "", "").message(), "success: false\nstdout: \nstderr: ");
}

#[test]
fn command_error_messages() {
    assert_eq!(
        CommandError::IoError("no such file".to_string()).message(),
        "IO error: no such file"
    );
    assert_eq!(
        CommandError::Utf8Error("invalid byte".to_string()).message(),
        "UTF-8 error: invalid byte"
    );
    assert_eq!(
        CommandError::CommandFailed(output(false, "o", "e")).message(),
        "Command failed: success: false\nstdout: o\nstderr: e"
    );
}

#[test]
fn dependency_error_messages() {
    assert_eq!(DependencyError::Unknown.message(), "Unknown error");
    assert_eq!(DependencyError::NotInstalled.message(), "Dependency not installed");
    assert_eq!(
        DependencyError::UnsupportedOperatingSystem.message(),
        "Unsupported operating system"
    );
    assert_eq!(DependencyError::IoError("x".to_string()).message(), "IO error: x");
    assert_eq!(
        DependencyError::DependencyFailed("curl".to_string()).message(),
        "Missing or unable to install required dependency: curl"
    );
    assert_eq!(DependencyError::Utf8Error("y".to_string()).message(), "UTF-8 error: y");
    assert_eq!(
        DependencyError::CommandError(output(true, "a", "b")).message(),
        "Command error: success: true\nstdout: a\nstderr: b"
    );
}

#[test]
fn a_command_error_becomes_a_dependency_error_of_its_kind() {
    let io = DependencyError::from(CommandError::IoError("gone".to_string()));
    assert!(matches!(io, DependencyError::IoError(why) if why == "gone"));
    let utf8 = DependencyError::from(CommandError::Utf8Error("bad".to_string()));
    assert!(matches!(utf8, DependencyError::Utf8Error(why) if why == "bad"));
    let failed = DependencyError::of(CommandError::CommandFailed(output(false, "o", "e")));
    assert!(matches!(failed, DependencyError::CommandError(out) if out.stdout == "o" && !out.success));
}

#[test]
fn the_default_command_is_empty_and_shown() {
    let command = DCommand::default();
    assert_eq!(command.build_command_string(), " ");
    assert_eq!(command.command_line(), "");
    assert!(command.is_live_print());
    assert_eq!(command.invocation("someone").0, "sh");
}
