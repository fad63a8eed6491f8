//! The JSON form of each document of the schema.

use crate::codec::{
    array_field, array_field_or_empty, array_or_empty, array_to_json, encode_each, field, is_text,
    optional, optional_field, required, required_array, JsonForm, SchemaError,
};
use crate::json::{Json, JsonModel};
use crate::schema::{
    Config, ConfigView, Mod, ModIdentifier, ModIdentifierView, ModLoader, ModView, Profile,
    ProfileItem, ProfileItemView, ProfileView,
};
use vstd::prelude::*;

verus! {

/// The mod loader that a name stands for.
pub open spec fn loader_named(name: Seq<char>) -> Option<ModLoader> {
    if name == "Quilt"@ {
        Some(ModLoader::Quilt)
    } else if name == "Fabric"@ {
        Some(ModLoader::Fabric)
    } else if name == "Forge"@ {
        Some(ModLoader::Forge)
    } else if name == "NeoForge"@ {
        Some(ModLoader::NeoForge)
    } else {
        None
    }
}

/// The name of a mod loader.
pub open spec fn loader_name(loader: ModLoader) -> Seq<char> {
    match loader {
        ModLoader::Quilt => "Quilt"@,
        ModLoader::Fabric => "Fabric"@,
        ModLoader::Forge => "Forge"@,
        ModLoader::NeoForge => "NeoForge"@,
    }
}

impl JsonForm for ModLoader {
    /// A mod loader is written as its name.
    open spec fn decode(j: JsonModel) -> Result<ModLoader, SchemaError> {
        match j {
            JsonModel::Text(name) => match loader_named(name) {
                Some(loader) => Ok(loader),
                None => Err(SchemaError::UnknownVariant),
            },
            _ => Err(SchemaError::WrongType),
        }
    }

    open spec fn encode(v: ModLoader) -> JsonModel {
        JsonModel::Text(loader_name(v))
    }

    fn from_json(j: &Json) -> (r: Result<ModLoader, SchemaError>) {
        match j {
            Json::Text(name) => {
                if is_text(name, "Quilt") {
                    Ok(ModLoader::Quilt)
                } else if is_text(name, "Fabric") {
                    Ok(ModLoader::Fabric)
                } else if is_text(name, "Forge") {
                    Ok(ModLoader::Forge)
                } else if is_text(name, "NeoForge") {
                    Ok(ModLoader::NeoForge)
                } else {
                    Err(SchemaError::UnknownVariant)
                }
            },
            _ => Err(SchemaError::WrongType),
        }
    }

    fn to_json(&self) -> (j: Json) {
        let name = match self {
            ModLoader::Quilt => "Quilt",
            ModLoader::Fabric => "Fabric",
            ModLoader::Forge => "Forge",
            ModLoader::NeoForge => "NeoForge",
        };
        Json::Text(name.to_owned())
    }
}

/// The two parts of a repository's name: its owner, then the repository.
pub open spec fn decode_repository(body: JsonModel) -> Result<ModIdentifierView, SchemaError> {
    match body {
        JsonModel::Array(parts) => if parts.len() != 2 {
            Err(SchemaError::WrongType)
        } else {
            match String::decode(parts[0]) {
                Err(e) => Err(e),
                Ok(owner) => match String::decode(parts[1]) {
                    Err(e) => Err(e),
                    Ok(name) => Ok(ModIdentifierView::GitHubRepository(owner, name)),
                },
            }
        },
        _ => Err(SchemaError::WrongType),
    }
}

impl JsonForm for ModIdentifier {
    /// An identifier is written as an object with one member: its key says
    /// where the mod comes from, its value what the mod is called there.
    open spec fn decode(j: JsonModel) -> Result<ModIdentifierView, SchemaError> {
        match j {
            JsonModel::Object(members) => if members.len() != 1 {
                Err(SchemaError::WrongType)
            } else if members[0].0 == "CurseForgeProject"@ {
                match i32::decode(members[0].1) {
                    Ok(id) => Ok(ModIdentifierView::CurseForgeProject(id)),
                    Err(e) => Err(e),
                }
            } else if members[0].0 == "ModrinthProject"@ {
                match String::decode(members[0].1) {
                    Ok(id) => Ok(ModIdentifierView::ModrinthProject(id)),
                    Err(e) => Err(e),
                }
            } else if members[0].0 == "GitHubRepository"@ {
                decode_repository(members[0].1)
            } else {
                Err(SchemaError::UnknownVariant)
            },
            _ => Err(SchemaError::WrongType),
        }
    }

    open spec fn encode(v: ModIdentifierView) -> JsonModel {
        match v {
            ModIdentifierView::CurseForgeProject(id) => JsonModel::Object(
                seq![("CurseForgeProject"@, i32::encode(id))],
            ),
            ModIdentifierView::ModrinthProject(id) => JsonModel::Object(
                seq![("ModrinthProject"@, String::encode(id))],
            ),
            ModIdentifierView::GitHubRepository(owner, name) => JsonModel::Object(
                seq![
                    (
                        "GitHubRepository"@,
                        JsonModel::Array(seq![String::encode(owner), String::encode(name)]),
                    ),
                ],
            ),
        }
    }

    fn from_json(j: &Json) -> (r: Result<ModIdentifier, SchemaError>) {
        match j {
            Json::Object(members) => {
                if members.len() != 1 {
                    return Err(SchemaError::WrongType);
                }
                let tag = &members[0].0;
                let body = &members[0].1;
                assert(j@->Object_0[0] == (tag@, body@));
                if is_text(tag, "CurseForgeProject") {
                    match i32::from_json(body) {
                        Ok(id) => Ok(ModIdentifier::CurseForgeProject(id)),
                        Err(e) => Err(e),
                    }
                } else if is_text(tag, "ModrinthProject") {
                    match String::from_json(body) {
                        Ok(id) => Ok(ModIdentifier::ModrinthProject(id)),
                        Err(e) => Err(e),
                    }
                } else if is_text(tag, "GitHubRepository") {
                    match body {
                        Json::Array(parts) => {
                            if parts.len() != 2 {
                                return Err(SchemaError::WrongType);
                            }
                            assert(body@->Array_0[0] == parts@[0]@);
                            assert(body@->Array_0[1] == parts@[1]@);
                            match String::from_json(&parts[0]) {
                                Err(e) => Err(e),
                                Ok(owner) => match String::from_json(&parts[1]) {
                                    Err(e) => Err(e),
                                    Ok(name) => Ok(ModIdentifier::GitHubRepository(owner, name)),
                                },
                            }
                        },
                        _ => Err(SchemaError::WrongType),
                    }
                } else {
                    Err(SchemaError::UnknownVariant)
                }
            },
            _ => Err(SchemaError::WrongType),
        }
    }

    fn to_json(&self) -> (j: Json) {
        let (tag, body) = match self {
            ModIdentifier::CurseForgeProject(id) => ("CurseForgeProject", id.to_json()),
            ModIdentifier::ModrinthProject(id) => ("ModrinthProject", id.to_json()),
            ModIdentifier::GitHubRepository(owner, name) => {
                let parts = Json::Array(vec![owner.to_json(), name.to_json()]);
                assert(parts@->Array_0 =~= seq![String::encode(owner@), String::encode(name@)]);
                ("GitHubRepository", parts)
            },
        };
        let j = Json::Object(vec![(tag.to_owned(), body)]);
        assert(j@->Object_0 =~= seq![(tag@, body@)]);
        j
    }
}

impl JsonForm for Mod {
    /// A mod is written as an object with its `name` and its `identifier`.
    open spec fn decode(j: JsonModel) -> Result<ModView, SchemaError> {
        if !(j is Object) {
            Err(SchemaError::WrongType)
        } else {
            match required::<String>(j, "name"@) {
                Err(e) => Err(e),
                Ok(name) => match required::<ModIdentifier>(j, "identifier"@) {
                    Err(e) => Err(e),
                    Ok(identifier) => Ok(ModView { name, identifier }),
                },
            }
        }
    }

    open spec fn encode(v: ModView) -> JsonModel {
        JsonModel::Object(
            seq![
                ("name"@, String::encode(v.name)),
                ("identifier"@, ModIdentifier::encode(v.identifier)),
            ],
        )
    }

    fn from_json(j: &Json) -> (r: Result<Mod, SchemaError>) {
        match j {
            Json::Object(_) => {
                let name = field::<String>(j, "name")?;
                let identifier = field::<ModIdentifier>(j, "identifier")?;
                Ok(Mod { name, identifier })
            },
            _ => Err(SchemaError::WrongType),
        }
    }

    fn to_json(&self) -> (j: Json) {
        let members = vec![
            ("name".to_owned(), self.name.to_json()),
            ("identifier".to_owned(), self.identifier.to_json()),
        ];
        let j = Json::Object(members);
        assert(j@->Object_0 =~= Self::encode(self@)->Object_0);
        j
    }
}

impl JsonForm for ProfileItem {
    /// An entry of the configuration's list of profiles is written as an
    /// object with its `name` and its `path`.
    open spec fn decode(j: JsonModel) -> Result<ProfileItemView, SchemaError> {
        if !(j is Object) {
            Err(SchemaError::WrongType)
        } else {
            match required::<String>(j, "name"@) {
                Err(e) => Err(e),
                Ok(name) => match required::<String>(j, "path"@) {
                    Err(e) => Err(e),
                    Ok(path) => Ok(ProfileItemView { name, path }),
                },
            }
        }
    }

    open spec fn encode(v: ProfileItemView) -> JsonModel {
        JsonModel::Object(
            seq![("name"@, String::encode(v.name)), ("path"@, String::encode(v.path))],
        )
    }

    fn from_json(j: &Json) -> (r: Result<ProfileItem, SchemaError>) {
        match j {
            Json::Object(_) => {
                let name = field::<String>(j, "name")?;
                let path = field::<String>(j, "path")?;
                Ok(ProfileItem { name, path })
            },
            _ => Err(SchemaError::WrongType),
        }
    }

    fn to_json(&self) -> (j: Json) {
        let members = vec![
            ("name".to_owned(), self.name.to_json()),
            ("path".to_owned(), self.path.to_json()),
        ];
        let j = Json::Object(members);
        assert(j@->Object_0 =~= Self::encode(self@)->Object_0);
        j
    }
}

/// The place of the profile in use, where an object names one; else the
/// first.
pub open spec fn decode_active(j: JsonModel) -> Result<usize, SchemaError> {
    match j.get("active_profile"@) {
        Some(x) => usize::decode(x),
        None => Ok(0),
    }
}

impl JsonForm for Config {
    /// The configuration is written as an object with `active_profile` and
    /// `profiles`. One that is left out stands for its initial value.
    open spec fn decode(j: JsonModel) -> Result<ConfigView, SchemaError> {
        if !(j is Object) {
            Err(SchemaError::WrongType)
        } else {
            match decode_active(j) {
                Err(e) => Err(e),
                Ok(active_profile) => match array_or_empty::<ProfileItem>(j, "profiles"@) {
                    Err(e) => Err(e),
                    Ok(profiles) => Ok(ConfigView { active_profile, profiles }),
                },
            }
        }
    }

    open spec fn encode(v: ConfigView) -> JsonModel {
        JsonModel::Object(
            seq![
                ("active_profile"@, usize::encode(v.active_profile)),
                ("profiles"@, JsonModel::Array(encode_each::<ProfileItem>(v.profiles))),
            ],
        )
    }

    fn from_json(j: &Json) -> (r: Result<Config, SchemaError>) {
        match j {
            Json::Object(_) => {
                let active_profile = match j.get("active_profile") {
                    Some(x) => usize::from_json(x)?,
                    None => 0,
                };
                let profiles = array_field_or_empty::<ProfileItem>(j, "profiles")?;
                Ok(Config { active_profile, profiles })
            },
            _ => Err(SchemaError::WrongType),
        }
    }

    fn to_json(&self) -> (j: Json) {
        let members = vec![
            ("active_profile".to_owned(), self.active_profile.to_json()),
            ("profiles".to_owned(), array_to_json(&self.profiles)),
        ];
        let j = Json::Object(members);
        assert(j@->Object_0 =~= Self::encode(self@)->Object_0);
        j
    }
}

impl JsonForm for Profile {
    /// A profile is written as an object with `output_dir`, `game_versions`,
    /// `mod_loaders` and `mods`. The two middle ones may be left out, as
    /// older documents do, which hold a `game_version` and a `mod_loader`
    /// in their place. Those two are read and never written.
    open spec fn decode(j: JsonModel) -> Result<ProfileView, SchemaError> {
        if !(j is Object) {
            Err(SchemaError::WrongType)
        } else {
            match required::<String>(j, "output_dir"@) {
                Err(e) => Err(e),
                Ok(output_dir) => match array_or_empty::<String>(j, "game_versions"@) {
                    Err(e) => Err(e),
                    Ok(game_versions) => match array_or_empty::<ModLoader>(j, "mod_loaders"@) {
                        Err(e) => Err(e),
                        Ok(mod_loaders) => match required_array::<Mod>(j, "mods"@) {
                            Err(e) => Err(e),
                            Ok(mods) => match optional::<String>(j, "game_version"@) {
                                Err(e) => Err(e),
                                Ok(game_version) => match optional::<ModLoader>(
                                    j,
                                    "mod_loader"@,
                                ) {
                                    Err(e) => Err(e),
                                    Ok(mod_loader) => Ok(
                                        ProfileView {
                                            output_dir,
                                            game_versions,
                                            mod_loaders,
                                            mods,
                                            game_version,
                                            mod_loader,
                                        },
                                    ),
                                },
                            },
                        },
                    },
                },
            }
        }
    }

    open spec fn encode(v: ProfileView) -> JsonModel {
        JsonModel::Object(
            seq![
                ("output_dir"@, String::encode(v.output_dir)),
                ("game_versions"@, JsonModel::Array(encode_each::<String>(v.game_versions))),
                ("mod_loaders"@, JsonModel::Array(encode_each::<ModLoader>(v.mod_loaders))),
                ("mods"@, JsonModel::Array(encode_each::<Mod>(v.mods))),
            ],
        )
    }

    fn from_json(j: &Json) -> (r: Result<Profile, SchemaError>) {
        match j {
            Json::Object(_) => {
                let output_dir = field::<String>(j, "output_dir")?;
                let game_versions = array_field_or_empty::<String>(j, "game_versions")?;
                let mod_loaders = array_field_or_empty::<ModLoader>(j, "mod_loaders")?;
                let mods = array_field::<Mod>(j, "mods")?;
                let game_version = optional_field::<String>(j, "game_version")?;
                let mod_loader = optional_field::<ModLoader>(j, "mod_loader")?;
                Ok(
                    Profile {
                        output_dir,
                        game_versions,
                        mod_loaders,
                        mods,
                        game_version,
                        mod_loader,
                    },
                )
            },
            _ => Err(SchemaError::WrongType),
        }
    }

    fn to_json(&self) -> (j: Json) {
        let members = vec![
            ("output_dir".to_owned(), self.output_dir.to_json()),
            ("game_versions".to_owned(), array_to_json(&self.game_versions)),
            ("mod_loaders".to_owned(), array_to_json(&self.mod_loaders)),
            ("mods".to_owned(), array_to_json(&self.mods)),
        ];
        let j = Json::Object(members);
        assert(j@->Object_0 =~= Self::encode(self@)->Object_0);
        j
    }
}

} // verus!
