//! The components that can be installed, one in each file.

pub mod apt_transport_https;
pub mod authorized_keys;
pub mod bat;
pub mod ca_certificates;
pub mod curl;
pub mod docker;
pub mod firefox;
pub mod gcc;
pub mod git;
pub mod gnupg;
pub mod nodejs;
pub mod nvm;
pub mod ohmyzsh;
pub mod package_cache_refresh;
pub mod pip3;
pub mod powerlevel10k;
pub mod python3;
pub mod python3_dev;
pub mod rust;
pub mod setuptools;
pub mod thefuck;
pub mod tmux;
pub mod tokei;
pub mod vscode;
pub mod yarn;
pub mod zsh;
pub mod zsh_aliases;
pub mod zsh_autosuggestions;
pub mod zsh_syntax_highlighting;
pub mod zshrc;
