//! Bringing a profile of an older document into its current form.

use crate::codec::views;
use crate::schema::{ModLoader, Profile, ProfileView};
use vstd::prelude::*;

verus! {

/// The mod loaders that stand for the one mod loader of an older
/// document. Quilt runs Fabric's mods too, so it comes with Fabric behind
/// it.
pub open spec fn loaders_for(loader: ModLoader) -> Seq<ModLoader> {
    match loader {
        ModLoader::Quilt => seq![ModLoader::Quilt, ModLoader::Fabric],
        _ => seq![loader],
    }
}

impl ProfileView {
    /// The profile in its current form. What an older document holds in
    /// `game_version` and `mod_loader` takes the place of the rows
    /// `game_versions` and `mod_loaders`, and the two older fields are left
    /// empty. Everything else stays.
    pub open spec fn migrated(self) -> ProfileView {
        ProfileView {
            output_dir: self.output_dir,
            game_versions: match self.game_version {
                Some(version) => seq![version],
                None => self.game_versions,
            },
            mod_loaders: match self.mod_loader {
                Some(loader) => loaders_for(loader),
                None => self.mod_loaders,
            },
            mods: self.mods,
            game_version: None,
            mod_loader: None,
        }
    }
}

impl Profile {
    /// Brings the profile into its current form.
    pub fn backwards_compat(&mut self)
        ensures
            final(self)@ == old(self)@.migrated(),
            final(self).mods == old(self).mods,
    {
        if let Some(version) = self.game_version.take() {
            self.game_versions = vec![version];
            assert(views(self.game_versions@) =~= seq![version@]);
        }
        if let Some(loader) = self.mod_loader.take() {
            self.mod_loaders = match loader {
                ModLoader::Quilt => vec![ModLoader::Quilt, ModLoader::Fabric],
                _ => vec![loader],
            };
            assert(views(self.mod_loaders@) =~= loaders_for(loader));
        }
    }
}

/// A migrated profile is in its current form.
pub proof fn lemma_migrated_is_current(v: ProfileView)
    ensures
        v.migrated().is_current(),
{
}

/// Migration changes nothing in a profile that is in its current form.
pub proof fn lemma_migrated_keeps_current(v: ProfileView)
    requires
        v.is_current(),
    ensures
        v.migrated() == v,
{
}

/// Migrating twice is the same as migrating once.
pub proof fn lemma_migrated_twice(v: ProfileView)
    ensures
        v.migrated().migrated() == v.migrated(),
{
}

} // verus!
