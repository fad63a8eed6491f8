//! The documents that are kept on disk: one configuration, and any number
//! of profiles.

use crate::codec::views;
use vstd::prelude::*;

verus! {

/// A mod loader that a profile can ask for.
#[derive(Clone, Copy, Debug, PartialEq, Eq, Structural)]
pub enum ModLoader {
    Quilt,
    Fabric,
    Forge,
    NeoForge,
}

impl View for ModLoader {
    type V = ModLoader;

    open spec fn view(&self) -> ModLoader {
        *self
    }
}

/// Where a mod comes from, and what it is called there.
#[derive(Clone, Debug, PartialEq, Eq)]
pub enum ModIdentifier {
    CurseForgeProject(i32),
    ModrinthProject(String),
    GitHubRepository(String, String),
}

/// The content of a `ModIdentifier`.
pub enum ModIdentifierView {
    CurseForgeProject(i32),
    ModrinthProject(Seq<char>),
    GitHubRepository(Seq<char>, Seq<char>),
}

impl View for ModIdentifier {
    type V = ModIdentifierView;

    open spec fn view(&self) -> ModIdentifierView {
        match self {
            ModIdentifier::CurseForgeProject(id) => ModIdentifierView::CurseForgeProject(*id),
            ModIdentifier::ModrinthProject(id) => ModIdentifierView::ModrinthProject(id@),
            ModIdentifier::GitHubRepository(owner, name) => ModIdentifierView::GitHubRepository(
                owner@,
                name@,
            ),
        }
    }
}

/// One mod that a profile tracks.
#[derive(Clone, Debug, PartialEq, Eq)]
pub struct Mod {
    /// The name shown to the user; a loaded profile lists its mods by it.
    pub name: String,
    pub identifier: ModIdentifier,
}

/// The content of a `Mod`.
pub struct ModView {
    pub name: Seq<char>,
    pub identifier: ModIdentifierView,
}

impl View for Mod {
    type V = ModView;

    open spec fn view(&self) -> ModView {
        ModView { name: self.name@, identifier: self.identifier@ }
    }
}

/// A set of mods, with the directory they are installed to and the game
/// versions and mod loaders they are picked for.
#[derive(Clone, Debug, PartialEq, Eq)]
pub struct Profile {
    pub output_dir: String,
    pub game_versions: Vec<String>,
    pub mod_loaders: Vec<ModLoader>,
    pub mods: Vec<Mod>,
    /// The single game version of an older document. Read, never written.
    pub game_version: Option<String>,
    /// The single mod loader of an older document. Read, never written.
    pub mod_loader: Option<ModLoader>,
}

/// The content of a `Profile`.
pub struct ProfileView {
    pub output_dir: Seq<char>,
    pub game_versions: Seq<Seq<char>>,
    pub mod_loaders: Seq<ModLoader>,
    pub mods: Seq<ModView>,
    pub game_version: Option<Seq<char>>,
    pub mod_loader: Option<ModLoader>,
}

impl View for Profile {
    type V = ProfileView;

    open spec fn view(&self) -> ProfileView {
        ProfileView {
            output_dir: self.output_dir@,
            game_versions: views(self.game_versions@),
            mod_loaders: views(self.mod_loaders@),
            mods: views(self.mods@),
            game_version: match self.game_version {
                Some(v) => Some(v@),
                None => None,
            },
            mod_loader: self.mod_loader,
        }
    }
}

impl ProfileView {
    /// Whether the profile is in its current form: nothing is left in the
    /// fields of older documents.
    pub open spec fn is_current(self) -> bool {
        self.game_version is None && self.mod_loader is None
    }
}

/// A profile as the configuration knows it: a name and the path of its
/// document.
#[derive(Clone, Debug, PartialEq, Eq)]
pub struct ProfileItem {
    pub name: String,
    pub path: String,
}

/// The content of a `ProfileItem`.
pub struct ProfileItemView {
    pub name: Seq<char>,
    pub path: Seq<char>,
}

impl View for ProfileItem {
    type V = ProfileItemView;

    open spec fn view(&self) -> ProfileItemView {
        ProfileItemView { name: self.name@, path: self.path@ }
    }
}

/// The settings of the whole program.
#[derive(Clone, Debug, PartialEq, Eq)]
pub struct Config {
    /// The place in `profiles` of the profile in use.
    pub active_profile: usize,
    pub profiles: Vec<ProfileItem>,
}

/// The content of a `Config`.
pub struct ConfigView {
    pub active_profile: usize,
    pub profiles: Seq<ProfileItemView>,
}

impl View for Config {
    type V = ConfigView;

    open spec fn view(&self) -> ConfigView {
        ConfigView {
            active_profile: self.active_profile,
            profiles: views(self.profiles@),
        }
    }
}

impl ConfigView {
    /// The configuration of a fresh installation: no profile yet.
    pub open spec fn initial() -> ConfigView {
        ConfigView { active_profile: 0, profiles: Seq::empty() }
    }
}

impl Default for Config {
    fn default() -> (config: Config)
        ensures
            config@ == ConfigView::initial(),
    {
        let config = Config { active_profile: 0, profiles: Vec::new() };
        assert(config@.profiles =~= Seq::empty());
        config
    }
}

} // verus!
