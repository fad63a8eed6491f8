//! What holds of the JSON forms: a value that is written and read again is
//! the same value, and every written document can be printed.

use crate::codec::{
    decode_array, encode_each, lemma_decode_each_accepted, JsonForm, SchemaError,
};
use crate::json::{lemma_member_absent, lemma_member_found, JsonModel};
use crate::schema::{
    Config, ConfigView, Mod, ModIdentifier, ModIdentifierView, ModLoader, ModView, Profile,
    ProfileItem, ProfileItemView, ProfileView,
};
use vstd::prelude::*;

verus! {

/// A row of values that is written and read again is the same row, where
/// this holds of each value.
pub proof fn lemma_array_round_trip<T: JsonForm>(values: Seq<T::V>)
    requires
        forall|i: int|
            0 <= i < values.len() ==> T::decode(T::encode(#[trigger] values[i])) == Ok::<
                T::V,
                SchemaError,
            >(values[i]),
    ensures
        decode_array::<T>(JsonModel::Array(encode_each::<T>(values))) == Ok::<
            Seq<T::V>,
            SchemaError,
        >(values),
{
    let items = encode_each::<T>(values);
    assert forall|k: int| 0 <= k < items.len() implies T::decode(#[trigger] items[k]) == Ok::<
        T::V,
        SchemaError,
    >(values[k]) by {
        assert(items[k] == T::encode(values[k]));
    }
    lemma_decode_each_accepted::<T>(items, values);
}

/// The array written for a row of values can be printed, where the
/// document of each value can.
pub proof fn lemma_array_printable<T: JsonForm>(values: Seq<T::V>)
    requires
        forall|i: int| 0 <= i < values.len() ==> T::encode(#[trigger] values[i]).printable(),
    ensures
        JsonModel::Array(encode_each::<T>(values)).printable(),
{
    let items = encode_each::<T>(values);
    assert forall|k: int| 0 <= k < items.len() implies (#[trigger] items[k]).printable() by {
        assert(items[k] == T::encode(values[k]));
    }
}

/// A text that is written and read again is the same text.
pub proof fn lemma_text_round_trip(v: Seq<char>)
    ensures
        String::decode(String::encode(v)) == Ok::<Seq<char>, SchemaError>(v),
        String::encode(v).printable(),
{
}

/// The names of the mod loaders all differ.
proof fn lemma_loader_names_differ()
    ensures
        "Quilt"@ != "Fabric"@,
        "Quilt"@ != "Forge"@,
        "Quilt"@ != "NeoForge"@,
        "Fabric"@ != "Forge"@,
        "Fabric"@ != "NeoForge"@,
        "Forge"@ != "NeoForge"@,
{
    reveal_strlit("Quilt");
    reveal_strlit("Fabric");
    reveal_strlit("Forge");
    reveal_strlit("NeoForge");
    assert("Quilt"@.len() == 5 && "Fabric"@.len() == 6);
    assert("Forge"@.len() == 5 && "NeoForge"@.len() == 8);
    assert("Quilt"@[0] != "Forge"@[0]);
}

/// The tags of the identifiers all differ.
proof fn lemma_identifier_tags_differ()
    ensures
        "CurseForgeProject"@ != "ModrinthProject"@,
        "CurseForgeProject"@ != "GitHubRepository"@,
        "ModrinthProject"@ != "GitHubRepository"@,
{
    reveal_strlit("CurseForgeProject");
    reveal_strlit("ModrinthProject");
    reveal_strlit("GitHubRepository");
    assert("CurseForgeProject"@.len() == 17);
    assert("ModrinthProject"@.len() == 15);
    assert("GitHubRepository"@.len() == 16);
}

/// A mod loader that is written and read again is the same mod loader.
pub proof fn lemma_mod_loader_round_trip(v: ModLoader)
    ensures
        ModLoader::decode(ModLoader::encode(v)) == Ok::<ModLoader, SchemaError>(v),
        ModLoader::encode(v).printable(),
{
    lemma_loader_names_differ();
}

/// An identifier that is written and read again is the same identifier.
pub proof fn lemma_mod_identifier_round_trip(v: ModIdentifierView)
    ensures
        ModIdentifier::decode(ModIdentifier::encode(v)) == Ok::<ModIdentifierView, SchemaError>(v),
        ModIdentifier::encode(v).printable(),
{
    lemma_identifier_tags_differ();
    reveal_with_fuel(JsonModel::printable, 3);
    let members = ModIdentifier::encode(v)->Object_0;
    match v {
        ModIdentifierView::GitHubRepository(owner, name) => {
            let parts = members[0].1->Array_0;
            assert(parts[0] == String::encode(owner));
            assert(parts[1] == String::encode(name));
        },
        _ => {},
    }
}

/// The keys of a mod's members differ.
proof fn lemma_mod_keys_differ()
    ensures
        "name"@ != "identifier"@,
{
    reveal_strlit("name");
    reveal_strlit("identifier");
    assert("name"@.len() == 4);
    assert("identifier"@.len() == 10);
}

/// A mod that is written and read again is the same mod.
pub proof fn lemma_mod_round_trip(v: ModView)
    ensures
        Mod::decode(Mod::encode(v)) == Ok::<ModView, SchemaError>(v),
        Mod::encode(v).printable(),
{
    lemma_mod_keys_differ();
    lemma_mod_identifier_round_trip(v.identifier);
    let members = Mod::encode(v)->Object_0;
    assert(members[0].1.printable() && members[1].1.printable());
    lemma_member_found(members, "name"@, 0);
    lemma_member_found(members, "identifier"@, 1);
}

/// The keys of a list entry's members differ.
proof fn lemma_item_keys_differ()
    ensures
        "name"@ != "path"@,
{
    reveal_strlit("name");
    reveal_strlit("path");
    assert("name"@.len() == 4);
    assert("path"@.len() == 4);
    assert("name"@[0] != "path"@[0]);
}

/// An entry of the list of profiles that is written and read again is the
/// same entry.
pub proof fn lemma_profile_item_round_trip(v: ProfileItemView)
    ensures
        ProfileItem::decode(ProfileItem::encode(v)) == Ok::<ProfileItemView, SchemaError>(v),
        ProfileItem::encode(v).printable(),
{
    lemma_item_keys_differ();
    let members = ProfileItem::encode(v)->Object_0;
    assert(members[0].1.printable() && members[1].1.printable());
    lemma_member_found(members, "name"@, 0);
    lemma_member_found(members, "path"@, 1);
}

/// The keys of the configuration's members differ.
proof fn lemma_config_keys_differ()
    ensures
        "active_profile"@ != "profiles"@,
{
    reveal_strlit("active_profile");
    reveal_strlit("profiles");
    assert("active_profile"@.len() == 14);
    assert("profiles"@.len() == 8);
}

/// A configuration that is written and read again is the same
/// configuration.
pub proof fn lemma_config_round_trip(v: ConfigView)
    ensures
        Config::decode(Config::encode(v)) == Ok::<ConfigView, SchemaError>(v),
        Config::encode(v).printable(),
{
    lemma_config_keys_differ();
    assert forall|i: int| 0 <= i < v.profiles.len() implies ProfileItem::decode(
        ProfileItem::encode(#[trigger] v.profiles[i]),
    ) == Ok::<ProfileItemView, SchemaError>(v.profiles[i]) && ProfileItem::encode(
        v.profiles[i],
    ).printable() by {
        lemma_profile_item_round_trip(v.profiles[i]);
    }
    lemma_array_round_trip::<ProfileItem>(v.profiles);
    lemma_array_printable::<ProfileItem>(v.profiles);
    let members = Config::encode(v)->Object_0;
    assert(members[0].1.printable() && members[1].1.printable());
    lemma_member_found(members, "active_profile"@, 0);
    lemma_member_found(members, "profiles"@, 1);
}

/// The keys that a profile can hold all differ.
proof fn lemma_profile_keys_differ()
    ensures
        "output_dir"@ != "game_versions"@,
        "output_dir"@ != "mod_loaders"@,
        "output_dir"@ != "mods"@,
        "output_dir"@ != "game_version"@,
        "output_dir"@ != "mod_loader"@,
        "game_versions"@ != "mod_loaders"@,
        "game_versions"@ != "mods"@,
        "game_versions"@ != "game_version"@,
        "game_versions"@ != "mod_loader"@,
        "mod_loaders"@ != "mods"@,
        "mod_loaders"@ != "game_version"@,
        "mod_loaders"@ != "mod_loader"@,
        "mods"@ != "game_version"@,
        "mods"@ != "mod_loader"@,
        "game_version"@ != "mod_loader"@,
{
    reveal_strlit("output_dir");
    reveal_strlit("game_versions");
    reveal_strlit("mod_loaders");
    reveal_strlit("mods");
    reveal_strlit("game_version");
    reveal_strlit("mod_loader");
    assert("output_dir"@.len() == 10);
    assert("game_versions"@.len() == 13);
    assert("mod_loaders"@.len() == 11);
    assert("mods"@.len() == 4);
    assert("game_version"@.len() == 12);
    assert("mod_loader"@.len() == 10);
    assert("output_dir"@[0] != "mod_loader"@[0]);
}

/// A profile that is written and read again is the same profile, but for
/// the two fields of older documents, which are not written. A profile in
/// its current form is read as it was.
pub proof fn lemma_profile_round_trip(v: ProfileView)
    ensures
        Profile::decode(Profile::encode(v)) == Ok::<ProfileView, SchemaError>(
            ProfileView { game_version: None, mod_loader: None, ..v },
        ),
        v.is_current() ==> Profile::decode(Profile::encode(v)) == Ok::<ProfileView, SchemaError>(
            v,
        ),
{
    lemma_profile_keys_differ();
    lemma_profile_arrays(v);
    let members = Profile::encode(v)->Object_0;
    lemma_member_found(members, "output_dir"@, 0);
    lemma_member_found(members, "game_versions"@, 1);
    lemma_member_found(members, "mod_loaders"@, 2);
    lemma_member_found(members, "mods"@, 3);
    lemma_member_absent(members, "game_version"@);
    lemma_member_absent(members, "mod_loader"@);
}

/// The document written for a profile can be printed.
pub proof fn lemma_profile_printable(v: ProfileView)
    ensures
        Profile::encode(v).printable(),
{
    lemma_profile_keys_differ();
    lemma_profile_arrays(v);
    let members = Profile::encode(v)->Object_0;
    assert(members[0].1.printable() && members[1].1.printable());
    assert(members[2].1.printable() && members[3].1.printable());
}

/// The three rows of a profile are read as they were written, and can be
/// printed.
proof fn lemma_profile_arrays(v: ProfileView)
    ensures
        decode_array::<String>(JsonModel::Array(encode_each::<String>(v.game_versions))) == Ok::<
            Seq<Seq<char>>,
            SchemaError,
        >(v.game_versions),
        decode_array::<ModLoader>(JsonModel::Array(encode_each::<ModLoader>(v.mod_loaders)))
            == Ok::<Seq<ModLoader>, SchemaError>(v.mod_loaders),
        decode_array::<Mod>(JsonModel::Array(encode_each::<Mod>(v.mods))) == Ok::<
            Seq<ModView>,
            SchemaError,
        >(v.mods),
        JsonModel::Array(encode_each::<String>(v.game_versions)).printable(),
        JsonModel::Array(encode_each::<ModLoader>(v.mod_loaders)).printable(),
        JsonModel::Array(encode_each::<Mod>(v.mods)).printable(),
{
    assert forall|i: int| 0 <= i < v.mod_loaders.len() implies ModLoader::decode(
        ModLoader::encode(#[trigger] v.mod_loaders[i]),
    ) == Ok::<ModLoader, SchemaError>(v.mod_loaders[i]) && ModLoader::encode(
        v.mod_loaders[i],
    ).printable() by {
        lemma_mod_loader_round_trip(v.mod_loaders[i]);
    }
    assert forall|i: int| 0 <= i < v.mods.len() implies Mod::decode(
        Mod::encode(#[trigger] v.mods[i]),
    ) == Ok::<ModView, SchemaError>(v.mods[i]) && Mod::encode(v.mods[i]).printable() by {
        lemma_mod_round_trip(v.mods[i]);
    }
    lemma_array_round_trip::<String>(v.game_versions);
    lemma_array_round_trip::<ModLoader>(v.mod_loaders);
    lemma_array_round_trip::<Mod>(v.mods);
    lemma_array_printable::<String>(v.game_versions);
    lemma_array_printable::<ModLoader>(v.mod_loaders);
    lemma_array_printable::<Mod>(v.mods);
}

} // verus!
