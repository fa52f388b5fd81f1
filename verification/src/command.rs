//! A command line as a value: what to run, as whom, and what came of it.

use vstd::prelude::*;
use vstd::string::StringExecFns;
use crate::text::{join, joined, texts};

verus! {

/// What a command left behind.
#[derive(Debug)]
pub struct Output {
    pub success: bool,
    pub stdout: String,
    pub stderr: String,
}

/// Why a command gave no output to work with.
#[derive(Debug)]
pub enum CommandError {
    /// The command could not be started or waited for; the text says why.
    IoError(String),
    /// What the command printed was no UTF-8; the text says where.
    Utf8Error(String),
    CommandFailed(Output),
}

/// The user that a command runs as.
#[derive(Debug, Clone, Copy, PartialEq, Eq, Structural)]
pub enum AsUser {
    /// The user that the machine is set up for.
    DefaultUser,
    Root,
    /// No user is named.
    DoNothing,
}

impl Default for AsUser {
    fn default() -> (user: Self)
        ensures
            user == AsUser::Root,
    {
        AsUser::Root
    }
}

/// `true` or `false`, spelled out.
pub open spec fn flag_text(flag: bool) -> Seq<char> {
    if flag {
        "true"@
    } else {
        "false"@
    }
}

/// An output as one text.
pub open spec fn output_text(success: bool, stdout: Seq<char>, stderr: Seq<char>) -> Seq<char> {
    "success: "@ + flag_text(success) + "\nstdout: "@ + stdout + "\nstderr: "@ + stderr
}

impl Clone for Output {
    fn clone(&self) -> (copy: Self)
        ensures
            copy == *self,
    {
        Output {
            success: self.success,
            stdout: self.stdout.clone(),
            stderr: self.stderr.clone(),
        }
    }
}

impl Clone for CommandError {
    fn clone(&self) -> (copy: Self)
        ensures
            copy == *self,
    {
        match self {
            CommandError::IoError(why) => CommandError::IoError(why.clone()),
            CommandError::Utf8Error(why) => CommandError::Utf8Error(why.clone()),
            CommandError::CommandFailed(output) => CommandError::CommandFailed(output.clone()),
        }
    }
}

impl Output {
    /// The output as one text: whether the command succeeded, what it
    /// printed, and what it printed as errors.
    pub fn message(&self) -> (text: String)
        ensures
            text@ == output_text(self.success, self.stdout@, self.stderr@),
    {
        let mut text = String::from_str("success: ");
        if self.success {
            text.append("true");
        } else {
            text.append("false");
        }
        text.append("\nstdout: ");
        text.append(self.stdout.as_str());
        text.append("\nstderr: ");
        text.append(self.stderr.as_str());
        text
    }
}

impl CommandError {
    /// The error as one text.
    pub fn message(&self) -> (text: String)
        ensures
            text@ == (match *self {
                CommandError::IoError(why) => "IO error: "@ + why@,
                CommandError::Utf8Error(why) => "UTF-8 error: "@ + why@,
                CommandError::CommandFailed(output) => "Command failed: "@ + output_text(
                    output.success,
                    output.stdout@,
                    output.stderr@,
                ),
            }),
    {
        match self {
            CommandError::IoError(why) => {
                let mut text = String::from_str("IO error: ");
                text.append(why.as_str());
                text
            },
            CommandError::Utf8Error(why) => {
                let mut text = String::from_str("UTF-8 error: ");
                text.append(why.as_str());
                text
            },
            CommandError::CommandFailed(output) => {
                let mut text = String::from_str("Command failed: ");
                text.append(output.message().as_str());
                text
            },
        }
    }
}

/// A command as a mathematical value.
pub struct DCommandView {
    pub cmd: Seq<char>,
    pub args: Seq<Seq<char>>,
    pub user: AsUser,
    pub live_print: bool,
}

/// A command with its arguments, the user to run it as, and whether what it
/// prints is shown while it runs.
#[derive(Debug)]
pub struct DCommand {
    cmd: String,
    args: Vec<String>,
    user: AsUser,
    live_print: bool,
}

impl View for DCommand {
    type V = DCommandView;

    closed spec fn view(&self) -> DCommandView {
        DCommandView {
            cmd: self.cmd@,
            args: texts(self.args@),
            user: self.user,
            live_print: self.live_print,
        }
    }
}

/// The command `cmd` with `args`, run as root, without showing what it
/// prints.
pub open spec fn plain(cmd: Seq<char>, args: Seq<Seq<char>>) -> DCommandView {
    DCommandView { cmd, args, user: AsUser::Root, live_print: false }
}

/// The texts that a list of string slices holds.
pub open spec fn slices(strings: Seq<&str>) -> Seq<Seq<char>> {
    Seq::new(strings.len(), |i: int| strings[i]@)
}

/// The command handed to the shell: the command, a blank, and the arguments
/// with a blank between each two.
pub open spec fn command_string(cmd: Seq<char>, args: Seq<Seq<char>>) -> Seq<char> {
    cmd + " "@ + joined(args, " "@)
}

/// The command as it is shown: the command, and each argument behind a
/// blank.
pub open spec fn command_line(cmd: Seq<char>, args: Seq<Seq<char>>) -> Seq<char>
    decreases args.len(),
{
    if args.len() == 0 {
        cmd
    } else {
        command_line(cmd, args.drop_last()) + " "@ + args.last()
    }
}

/// The name that `sudo -u` is given for a user.
pub open spec fn user_name(user: AsUser, current_user: Seq<char>) -> Seq<char> {
    match user {
        AsUser::DefaultUser => current_user,
        AsUser::Root => "root"@,
        AsUser::DoNothing => Seq::empty(),
    }
}

/// The program that is started for a command, and its arguments: a shell
/// for root, and otherwise `sudo`, which starts the shell as the user.
pub open spec fn invocation(c: DCommandView, current_user: Seq<char>) -> (
    Seq<char>,
    Seq<Seq<char>>,
) {
    if c.user == AsUser::Root {
        ("sh"@, seq!["-c"@, command_string(c.cmd, c.args)])
    } else {
        (
            "sudo"@,
            seq![
                "-u"@,
                user_name(c.user, current_user),
                "sh"@,
                "-c"@,
                command_string(c.cmd, c.args),
            ],
        )
    }
}

impl Clone for DCommand {
    fn clone(&self) -> (copy: Self)
        ensures
            copy@ == self@,
    {
        let mut args: Vec<String> = Vec::new();
        let mut i: usize = 0;
        while i < self.args.len()
            invariant
                0 <= i <= self.args.len(),
                args@.len() == i,
                forall|j: int| 0 <= j < i ==> #[trigger] args@[j] == self.args@[j],
            decreases self.args.len() - i,
        {
            args.push(self.args[i].clone());
            i = i + 1;
        }
        let copy = DCommand {
            cmd: self.cmd.clone(),
            args,
            user: self.user,
            live_print: self.live_print,
        };
        assert(copy@.args =~= self@.args);
        copy
    }
}

impl Default for DCommand {
    /// The empty command without arguments, to be run as root, with what it
    /// prints shown while it runs.
    fn default() -> (command: Self)
        ensures
            command@ == (DCommandView {
                cmd: Seq::empty(),
                args: Seq::empty(),
                user: AsUser::Root,
                live_print: true,
            }),
    {
        let command = DCommand {
            cmd: String::new(),
            args: Vec::new(),
            user: AsUser::Root,
            live_print: true,
        };
        assert(command@.args =~= Seq::<Seq<char>>::empty());
        command
    }
}

impl DCommand {
    /// The command `cmd` with the arguments `args`, to be run as root and
    /// without showing what it prints.
    pub fn new(cmd: &str, args: &[&str]) -> (command: Self)
        ensures
            command@ == (DCommandView {
                cmd: cmd@,
                args: slices(args@),
                user: AsUser::Root,
                live_print: false,
            }),
    {
        let mut owned: Vec<String> = Vec::new();
        let mut i: usize = 0;
        while i < args.len()
            invariant
                0 <= i <= args.len(),
                owned@.len() == i,
                forall|j: int| 0 <= j < i ==> (#[trigger] owned@[j])@ == args@[j]@,
            decreases args.len() - i,
        {
            owned.push(args[i].to_owned());
            i = i + 1;
        }
        let command = DCommand {
            cmd: cmd.to_owned(),
            args: owned,
            user: AsUser::Root,
            live_print: false,
        };
        assert(command@.args =~= slices(args@));
        command
    }

    /// The same command, to be run as `user`.
    pub fn user(self, user: AsUser) -> (command: Self)
        ensures
            command@ == (DCommandView { user, ..self@ }),
    {
        let mut command = self;
        command.user = user;
        command
    }

    /// The same command, with what it prints shown while it runs or not.
    pub fn live_print(self, live_print: bool) -> (command: Self)
        ensures
            command@ == (DCommandView { live_print, ..self@ }),
    {
        let mut command = self;
        command.live_print = live_print;
        command
    }

    /// Whether what the command prints is shown while it runs.
    pub fn is_live_print(&self) -> (live_print: bool)
        ensures
            live_print == self@.live_print,
    {
        self.live_print
    }

    /// The command as the shell gets it.
    pub fn build_command_string(&self) -> (line: String)
        ensures
            line@ == command_string(self@.cmd, self@.args),
    {
        let mut line = self.cmd.clone();
        line.append(" ");
        line.append(join(&self.args, " ").as_str());
        line
    }

    /// The command as it is shown.
    pub fn command_line(&self) -> (line: String)
        ensures
            line@ == command_line(self@.cmd, self@.args),
    {
        let mut line = self.cmd.clone();
        let mut i: usize = 0;
        assert(texts(self.args@).subrange(0, 0) =~= Seq::<Seq<char>>::empty());
        while i < self.args.len()
            invariant
                0 <= i <= self.args.len(),
                line@ == command_line(self.cmd@, texts(self.args@).subrange(0, i as int)),
            decreases self.args.len() - i,
        {
            let ghost upto = texts(self.args@).subrange(0, i + 1);
            proof {
                assert(upto.drop_last() =~= texts(self.args@).subrange(0, i as int));
                assert(upto.last() == self.args@[i as int]@);
            }
            line.append(" ");
            line.append(self.args[i].as_str());
            i = i + 1;
        }
        assert(texts(self.args@).subrange(0, self.args@.len() as int) =~= texts(self.args@));
        line
    }

    /// The program to start for this command, and its arguments.
    pub fn invocation(&self, current_user: &str) -> (started: (String, Vec<String>))
        ensures
            started.0@ == invocation(self@, current_user@).0,
            texts(started.1@) == invocation(self@, current_user@).1,
    {
        let line = self.build_command_string();
        let mut arguments: Vec<String> = Vec::new();
        match self.user {
            AsUser::Root => {
                arguments.push(String::from_str("-c"));
                arguments.push(line);
                assert(texts(arguments@) =~= invocation(self@, current_user@).1);
                (String::from_str("sh"), arguments)
            },
            AsUser::DefaultUser => {
                arguments.push(String::from_str("-u"));
                arguments.push(current_user.to_owned());
                arguments.push(String::from_str("sh"));
                arguments.push(String::from_str("-c"));
                arguments.push(line);
                assert(texts(arguments@) =~= invocation(self@, current_user@).1);
                (String::from_str("sudo"), arguments)
            },
            AsUser::DoNothing => {
                arguments.push(String::from_str("-u"));
                arguments.push(String::new());
                arguments.push(String::from_str("sh"));
                arguments.push(String::from_str("-c"));
                arguments.push(line);
                assert(texts(arguments@) =~= invocation(self@, current_user@).1);
                (String::from_str("sudo"), arguments)
            },
        }
    }
}

} // verus!
