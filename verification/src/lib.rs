//! Declared components of a machine setup, the graph of what each one
//! requires, and the order in which the graph is laid out in layers.
//!
//! The graph is built from declarations: a component's name with the
//! declarations of what it requires. Every component of the catalog also
//! knows how to check whether it is installed and how to install itself;
//! both are worked out here step by step, and carried out by the caller.

pub mod availability;
pub mod catalog;
pub mod closure;
pub mod command;
pub mod component;
pub mod components;
pub mod dependency;
pub mod graph;
pub mod insertion;
pub mod laws;
pub mod layering;
pub mod node;
pub mod status;
pub mod steps;
pub mod system;
pub mod text;

pub use catalog::all_top_level;
pub use command::{AsUser, CommandError, DCommand, Output};
pub use component::{DependencyInfo, DependencyInstallable};
pub use components::apt_transport_https::AptTransportHttps;
pub use components::authorized_keys::AuthorizedKeys;
pub use components::bat::Bat;
pub use components::ca_certificates::CaCertificates;
pub use components::curl::Curl;
pub use components::docker::Docker;
pub use components::firefox::Firefox;
pub use components::gcc::Gcc;
pub use components::git::Git;
pub use components::gnupg::Gnupg;
pub use components::nodejs::NodeJs;
pub use components::nvm::Nvm;
pub use components::ohmyzsh::OhMyZsh;
pub use components::package_cache_refresh::PackageCacheRefresh;
pub use components::pip3::Pip3;
pub use components::powerlevel10k::PowerLevel10k;
pub use components::python3::Python3;
pub use components::python3_dev::Python3Dev;
pub use components::rust::Rust;
pub use components::setuptools::SetupTools;
pub use components::thefuck::TheFuck;
pub use components::tmux::Tmux;
pub use components::tokei::Tokei;
pub use components::vscode::VsCode;
pub use components::yarn::Yarn;
pub use components::zsh::Zsh;
pub use components::zsh_aliases::ZshAliases;
pub use components::zsh_autosuggestions::ZshAutoSuggestions;
pub use components::zsh_syntax_highlighting::ZshSyntaxHighlighting;
pub use components::zshrc::Zshrc;
pub use dependency::Dependency;
pub use graph::DependencyGraph;
pub use node::DependencyGraphNode;
pub use steps::{Next, Reply, Request};
pub use status::{CommandResult, ConfigStatus, DependencyError, Installable, InstallationStatus};
pub use system::{DotfilesError, OperatingSystem, SystemData};
