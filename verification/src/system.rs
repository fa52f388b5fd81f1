//! The machine that is being set up: its operating system, the user it is
//! set up for, and that user's home directory.

use vstd::prelude::*;
use vstd::string::StringExecFns;
use crate::text::{same_text, split, split_of, texts};

verus! {

/// The operating systems that the components know.
#[derive(Debug, Clone, Copy, PartialEq, Eq, Structural)]
pub enum OperatingSystem {
    Ubuntu2204,
    Ubuntu2004,
    Ubuntu1804,
    Fedora38,
    Rocky9,
    Rocky8,
    PopOS2104,
}

/// Why the machine's operating system cannot be worked with.
#[derive(Debug)]
pub enum DotfilesError {
    /// The system's description of itself, which names no known system.
    UnknownOperatingSystem(String),
    UnsupportedOperatingSystem,
}

/// The operating system that a long version string names, if it names one.
pub open spec fn named_system(version: Seq<char>) -> Option<OperatingSystem> {
    if version == "Linux 22.04 Ubuntu"@ {
        Some(OperatingSystem::Ubuntu2204)
    } else if version == "Linux 20.04 Ubuntu"@ {
        Some(OperatingSystem::Ubuntu2004)
    } else if version == "Linux 18.04 Ubuntu"@ {
        Some(OperatingSystem::Ubuntu1804)
    } else if version == "Linux 38 Fedora Linux"@ {
        Some(OperatingSystem::Fedora38)
    } else if version == "Linux 9 Rocky"@ {
        Some(OperatingSystem::Rocky9)
    } else if version == "Linux 8 Rocky"@ {
        Some(OperatingSystem::Rocky8)
    } else if version == "Linux 21.04 Pop!_OS"@ {
        Some(OperatingSystem::PopOS2104)
    } else {
        None
    }
}

impl OperatingSystem {
    /// The operating system that the machine's long version string names.
    /// A string that names none comes back in the error; where the machine
    /// gave no string, the error says so.
    pub fn from_long_os_version(version: Option<&str>) -> (r: Result<Self, DotfilesError>)
        ensures
            match version {
                Some(v) => match named_system(v@) {
                    Some(os) => r == Ok::<Self, DotfilesError>(os),
                    None => r matches Err(DotfilesError::UnknownOperatingSystem(described))
                        && described@ == v@,
                },
                None => r matches Err(DotfilesError::UnknownOperatingSystem(described))
                    && described@ == "Unable to determine operating system"@,
            },
    {
        match version {
            Some(os) => {
                if same_text(os, "Linux 22.04 Ubuntu") {
                    Ok(OperatingSystem::Ubuntu2204)
                } else if same_text(os, "Linux 20.04 Ubuntu") {
                    Ok(OperatingSystem::Ubuntu2004)
                } else if same_text(os, "Linux 18.04 Ubuntu") {
                    Ok(OperatingSystem::Ubuntu1804)
                } else if same_text(os, "Linux 38 Fedora Linux") {
                    Ok(OperatingSystem::Fedora38)
                } else if same_text(os, "Linux 9 Rocky") {
                    Ok(OperatingSystem::Rocky9)
                } else if same_text(os, "Linux 8 Rocky") {
                    Ok(OperatingSystem::Rocky8)
                } else if same_text(os, "Linux 21.04 Pop!_OS") {
                    Ok(OperatingSystem::PopOS2104)
                } else {
                    Err(DotfilesError::UnknownOperatingSystem(os.to_owned()))
                }
            },
            None => Err(
                DotfilesError::UnknownOperatingSystem(
                    String::from_str("Unable to determine operating system"),
                ),
            ),
        }
    }

    /// Whether this is one of the Ubuntu releases.
    pub fn is_ubuntu(self) -> (r: bool)
        ensures
            r == (self is Ubuntu2204 || self is Ubuntu2004 || self is Ubuntu1804),
    {
        matches!(
            self,
            OperatingSystem::Ubuntu2204 | OperatingSystem::Ubuntu2004 | OperatingSystem::Ubuntu1804
        )
    }

    /// Whether packages come as `.deb`: an Ubuntu release or Pop!_OS.
    pub fn is_debian_like(self) -> (r: bool)
        ensures
            r == (self is Ubuntu2204 || self is Ubuntu2004 || self is Ubuntu1804
                || self is PopOS2104),
    {
        matches!(
            self,
            OperatingSystem::Ubuntu2204 | OperatingSystem::Ubuntu2004 | OperatingSystem::Ubuntu1804
                | OperatingSystem::PopOS2104
        )
    }

    /// Whether packages come as `.rpm`: Fedora or a Rocky release.
    pub fn is_red_hat_like(self) -> (r: bool)
        ensures
            r == (self is Fedora38 || self is Rocky8 || self is Rocky9),
    {
        matches!(
            self,
            OperatingSystem::Fedora38 | OperatingSystem::Rocky8 | OperatingSystem::Rocky9
        )
    }
}

/// What the components are told of the machine.
pub struct SystemData {
    pub operating_system: OperatingSystem,
    /// The user that the machine is set up for.
    pub current_user: String,
    /// That user's home directory, without a slash at its end.
    pub home_dir: String,
    /// What `.zshrc` is to start with.
    pub zshrc_base: String,
    /// What `.zsh_aliases` is to hold.
    pub zsh_aliases: String,
    /// What `.p10k.zsh` is to hold.
    pub p10k_config: String,
    /// The keys that may log in, one in each string.
    pub authorized_keys: Vec<String>,
}

impl SystemData {
    /// The path of `below`, which starts with a slash, under the home
    /// directory.
    pub fn home_path(&self, below: &str) -> (path: String)
        ensures
            path@ == self.home_dir@ + below@,
    {
        let mut path = self.home_dir.clone();
        path.append(below);
        path
    }
}

/// The user that the machine is set up for: the one who called `sudo`, where
/// that is known, and otherwise the one who is logged in.
pub fn current_user_of(sudo_user: Option<String>, login: String) -> (user: String)
    ensures
        user == (match sudo_user {
            Some(caller) => caller,
            None => login,
        }),
{
    match sudo_user {
        Some(caller) => caller,
        None => login,
    }
}

/// The home directory in a line of the password database: its sixth field,
/// counted between colons. A line with fewer fields has none.
pub fn home_dir_of(passwd_entry: &str) -> (home: Option<String>)
    ensures
        match home {
            Some(dir) => split_of(passwd_entry@, ':').len() > 5 && dir@ == split_of(
                passwd_entry@,
                ':',
            )[5],
            None => split_of(passwd_entry@, ':').len() <= 5,
        },
{
    let fields = split(passwd_entry, ':');
    assert(texts(fields@).len() == fields@.len());
    if fields.len() > 5 {
        assert(texts(fields@)[5] == fields@[5]@);
        Some(fields[5].clone())
    } else {
        None
    }
}

} // verus!
