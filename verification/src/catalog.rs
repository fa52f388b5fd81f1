//! The components that are asked for directly.

use vstd::prelude::*;
use crate::component::{all_declared, declaration};
use crate::components::authorized_keys::AuthorizedKeys;
use crate::components::bat::Bat;
use crate::components::docker::Docker;
use crate::components::firefox::Firefox;
use crate::components::git::Git;
use crate::components::nodejs::NodeJs;
use crate::components::ohmyzsh::OhMyZsh;
use crate::components::powerlevel10k::PowerLevel10k;
use crate::components::thefuck::TheFuck;
use crate::components::tmux::Tmux;
use crate::components::tokei::Tokei;
use crate::components::vscode::VsCode;
use crate::components::zsh::Zsh;
use crate::components::zsh_aliases::ZshAliases;
use crate::components::zsh_autosuggestions::ZshAutoSuggestions;
use crate::components::zsh_syntax_highlighting::ZshSyntaxHighlighting;
use crate::components::zshrc::Zshrc;
use crate::dependency::{declarations, Dependency, DependencyView};
use crate::status::DependencyError;
use crate::system::OperatingSystem;

verus! {

/// What the components that are asked for directly declare on an operating
/// system, in the order in which they are asked for; nothing where one of
/// them is not declared for it.
pub open spec fn top_level_declared(os: OperatingSystem) -> Option<Seq<DependencyView>> {
    all_declared(
        seq![
            AuthorizedKeys::declared_on(os),
            Bat::declared_on(os),
            Docker::declared_on(os),
            Firefox::declared_on(os),
            Git::declared_on(os),
            NodeJs::declared_on(os),
            OhMyZsh::declared_on(os),
            PowerLevel10k::declared_on(os),
            TheFuck::declared_on(os),
            Tmux::declared_on(os),
            Tokei::declared_on(os),
            VsCode::declared_on(os),
            ZshAliases::declared_on(os),
            ZshAutoSuggestions::declared_on(os),
            ZshSyntaxHighlighting::declared_on(os),
            Zsh::declared_on(os),
            Zshrc::declared_on(os),
        ],
    )
}

/// The declarations of the components that are asked for directly, each
/// with the declarations of all that it requires below it.
pub fn all_top_level(os: OperatingSystem) -> (r: Result<Vec<Dependency>, DependencyError>)
    ensures
        match r {
            Ok(list) => top_level_declared(os) == Some(declarations(list@)),
            Err(e) => top_level_declared(os) is None && e
                == DependencyError::UnsupportedOperatingSystem,
        },
{
    let mut list: Vec<Dependency> = Vec::new();
    list.push(declaration(AuthorizedKeys::singleton(), os)?);
    list.push(declaration(Bat::singleton(), os)?);
    list.push(declaration(Docker::singleton(), os)?);
    list.push(declaration(Firefox::singleton(), os)?);
    list.push(declaration(Git::singleton(), os)?);
    list.push(declaration(NodeJs::singleton(), os)?);
    list.push(declaration(OhMyZsh::singleton(), os)?);
    list.push(declaration(PowerLevel10k::singleton(), os)?);
    list.push(declaration(TheFuck::singleton(), os)?);
    list.push(declaration(Tmux::singleton(), os)?);
    list.push(declaration(Tokei::singleton(), os)?);
    list.push(declaration(VsCode::singleton(), os)?);
    list.push(declaration(ZshAliases::singleton(), os)?);
    list.push(declaration(ZshAutoSuggestions::singleton(), os)?);
    list.push(declaration(ZshSyntaxHighlighting::singleton(), os)?);
    list.push(declaration(Zsh::singleton(), os)?);
    list.push(declaration(Zshrc::singleton(), os)?);
    assert(declarations(list@) =~= top_level_declared(os)->0);
    Ok(list)
}

} // verus!
