//! Loading and storing the documents. The caller opens, reads and writes
//! the files; what to make of their bytes, and which bytes to write, is
//! decided here.

use crate::codec::{JsonForm, SchemaError};
use crate::json::Json;
use crate::laws::{lemma_config_round_trip, lemma_profile_printable, lemma_profile_round_trip};
use crate::order::{
    lemma_sorted_by_name_ascends, lemma_sorted_by_name_twice, lowercase, precedes, sort_by_name,
    sorted_by_name,
};
use crate::schema::{Config, ConfigView, Profile, ProfileView};
use crate::wire::{parse, parsed, print, printed, PrintError};
use serde_json::Error;
use vstd::prelude::*;

verus! {

/// What came of opening a document's file and reading it.
#[derive(Debug)]
pub enum Opened<E> {
    /// There is no file at the path.
    Missing,
    /// The file is there, and could not be opened or read.
    Failed(E),
    /// The bytes of the file.
    Contents(Vec<u8>),
}

/// Why a document could not be loaded.
#[derive(Debug)]
pub enum ReadError<E> {
    /// The file could not be opened or read; the cause is handed on as it
    /// came.
    Io(E),
    /// The bytes are no JSON text.
    Syntax(Error),
    /// The JSON text is no document of the schema.
    Schema(SchemaError),
}

impl ProfileView {
    /// The profile as it is handed out when its document is loaded: in its
    /// current form, with its mods in the order of their names.
    pub open spec fn loaded(self) -> ProfileView {
        ProfileView { mods: sorted_by_name(self.mods), ..self.migrated() }
    }
}

/// What the bytes of a profile's file hold: the profile as it is handed
/// out, or why the JSON text is no profile; `None` where the bytes are no
/// JSON text.
pub open spec fn profile_in(bytes: Seq<u8>) -> Option<Result<ProfileView, SchemaError>> {
    match parsed(bytes) {
        None => None,
        Some(doc) => Some(
            match Profile::decode(doc) {
                Ok(stored) => Ok(stored.loaded()),
                Err(e) => Err(e),
            },
        ),
    }
}

/// What the bytes of the configuration's file hold: the configuration, or
/// why the JSON text is none; `None` where the bytes are no JSON text.
pub open spec fn config_in(bytes: Seq<u8>) -> Option<Result<ConfigView, SchemaError>> {
    match parsed(bytes) {
        None => None,
        Some(doc) => Some(Config::decode(doc)),
    }
}

/// A profile in its current form that is written and loaded again is the
/// same profile with its mods in the order of their names.
pub proof fn lemma_stored_profile_loads(v: ProfileView)
    requires
        v.is_current(),
    ensures
        Profile::decode(Profile::encode(v)) matches Ok(stored) && stored.loaded() == (ProfileView {
            mods: sorted_by_name(v.mods),
            ..v
        }),
{
    lemma_profile_round_trip(v);
}

/// The same of the bytes that are written for the profile, wherever the
/// JSON reader makes of them the document that they were written for.
pub proof fn lemma_written_profile_reads_back(v: ProfileView, bytes: Seq<u8>)
    requires
        v.is_current(),
    ensures
        printed(Profile::encode(v)) == Some(bytes) && parsed(bytes) == Some(Profile::encode(v))
            ==> profile_in(bytes) == Some(
            Ok::<ProfileView, SchemaError>(ProfileView { mods: sorted_by_name(v.mods), ..v }),
        ),
{
    lemma_stored_profile_loads(v);
}

/// A loaded profile is in its current form, and its mods are in order:
/// loading what was loaded changes nothing.
pub proof fn lemma_loaded_twice(v: ProfileView)
    ensures
        v.loaded().is_current(),
        v.loaded().loaded() == v.loaded(),
{
    lemma_sorted_by_name_twice(v.mods);
}

/// In a loaded profile the names of the mods ascend: none comes, in
/// lowercase, before the name of a mod that stands earlier.
pub proof fn lemma_loaded_mods_ascend(v: ProfileView, i: int, j: int)
    requires
        0 <= i < j < v.mods.len(),
    ensures
        v.loaded().mods.len() == v.mods.len(),
        !precedes(lowercase(v.loaded().mods[j].name), lowercase(v.loaded().mods[i].name)),
{
    lemma_sorted_by_name_ascends(v.mods, i, j);
}

/// A configuration that is written is read back as it was, wherever the
/// JSON reader makes of the written bytes the document that they were
/// written for.
pub proof fn lemma_written_config_reads_back(v: ConfigView, bytes: Seq<u8>)
    ensures
        printed(Config::encode(v)) == Some(bytes) && parsed(bytes) == Some(Config::encode(v))
            ==> config_in(bytes) == Some(Ok::<ConfigView, SchemaError>(v)),
{
    lemma_config_round_trip(v);
}

/// The bytes that are written where the configuration is missing are read
/// as the initial configuration, under the same condition.
pub proof fn lemma_provisioned_config_reads_back(bytes: Seq<u8>)
    ensures
        printed(Config::encode(ConfigView::initial())) == Some(bytes) && parsed(bytes) == Some(
            Config::encode(ConfigView::initial()),
        ) ==> config_in(bytes) == Some(Ok::<ConfigView, SchemaError>(ConfigView::initial())),
{
    lemma_written_config_reads_back(ConfigView::initial(), bytes);
}

/// Makes a profile of its document: reads it, brings it into its current
/// form, and puts its mods in order.
pub fn load_profile(doc: &Json) -> (r: Result<Profile, SchemaError>)
    ensures
        match r {
            Ok(profile) => Profile::decode(doc@) matches Ok(stored) && profile@ == stored.loaded(),
            Err(e) => Profile::decode(doc@) == Err::<ProfileView, SchemaError>(e),
        },
{
    let mut profile = Profile::from_json(doc)?;
    profile.backwards_compat();
    let Profile { output_dir, game_versions, mod_loaders, mods, game_version, mod_loader } =
        profile;
    Ok(
        Profile {
            output_dir,
            game_versions,
            mod_loaders,
            mods: sort_by_name(mods),
            game_version,
            mod_loader,
        },
    )
}

/// Loads a profile from what came of opening its file.
///
/// A missing file is no error: there is no profile then. A file that could
/// not be read, or that holds no profile, is an error.
pub fn read_profile<E>(opened: Opened<E>) -> (r: Result<Option<Profile>, ReadError<E>>)
    ensures
        match opened {
            Opened::Missing => r matches Ok(None),
            Opened::Failed(cause) => r matches Err(ReadError::Io(e)) && e == cause,
            Opened::Contents(bytes) => match profile_in(bytes@) {
                None => r matches Err(ReadError::Syntax(_)),
                Some(Err(refusal)) => r matches Err(ReadError::Schema(e)) && e == refusal,
                Some(Ok(loaded)) => r matches Ok(Some(profile)) && profile@ == loaded,
            },
        },
{
    match opened {
        Opened::Missing => Ok(None),
        Opened::Failed(cause) => Err(ReadError::Io(cause)),
        Opened::Contents(bytes) => match parse(bytes.as_slice()) {
            Err(e) => Err(ReadError::Syntax(e)),
            Ok(doc) => match load_profile(&doc) {
                Err(e) => Err(ReadError::Schema(e)),
                Ok(profile) => Ok(Some(profile)),
            },
        },
    }
}

/// Loads the configuration from what came of reading its file.
pub fn read_config<E>(read: Result<Vec<u8>, E>) -> (r: Result<Config, ReadError<E>>)
    ensures
        match read {
            Err(cause) => r matches Err(ReadError::Io(e)) && e == cause,
            Ok(bytes) => match config_in(bytes@) {
                None => r matches Err(ReadError::Syntax(_)),
                Some(Err(refusal)) => r matches Err(ReadError::Schema(e)) && e == refusal,
                Some(Ok(stored)) => r matches Ok(config) && config@ == stored,
            },
        },
{
    match read {
        Err(cause) => Err(ReadError::Io(cause)),
        Ok(bytes) => match parse(bytes.as_slice()) {
            Err(e) => Err(ReadError::Syntax(e)),
            Ok(doc) => match Config::from_json(&doc) {
                Err(e) => Err(ReadError::Schema(e)),
                Ok(config) => Ok(config),
            },
        },
    }
}

/// The bytes to write to the configuration's file: its document as
/// indented JSON text. The document of a configuration can always be
/// printed, so the only error is one that the writer reports.
pub fn write_config(config: &Config) -> (r: Result<Vec<u8>, PrintError>)
    ensures
        match r {
            Ok(bytes) => printed(Config::encode(config@)) == Some(bytes@),
            Err(PrintError::Encoder(_)) => printed(Config::encode(config@)) is None,
            Err(PrintError::Unprintable) => false,
        },
{
    proof {
        lemma_config_round_trip(config@);
    }
    print(&config.to_json())
}

/// The bytes to write to a profile's file: its document as indented JSON
/// text. The document of a profile can always be printed, so the only
/// error is one that the writer reports.
pub fn write_profile(profile: &Profile) -> (r: Result<Vec<u8>, PrintError>)
    ensures
        match r {
            Ok(bytes) => printed(Profile::encode(profile@)) == Some(bytes@),
            Err(PrintError::Encoder(_)) => printed(Profile::encode(profile@)) is None,
            Err(PrintError::Unprintable) => false,
        },
{
    proof {
        lemma_profile_printable(profile@);
    }
    print(&profile.to_json())
}

/// What to write to the configuration's file before it is read: nothing
/// where the file is there, the initial configuration where it is not.
pub fn provision_config(exists: bool) -> (r: Result<Option<Vec<u8>>, PrintError>)
    ensures
        exists ==> r matches Ok(None),
        !exists ==> match r {
            Ok(Some(bytes)) => printed(Config::encode(ConfigView::initial())) == Some(bytes@),
            Ok(None) => false,
            Err(PrintError::Encoder(_)) => printed(Config::encode(ConfigView::initial())) is None,
            Err(PrintError::Unprintable) => false,
        },
{
    if exists {
        Ok(None)
    } else {
        match write_config(&Config::default()) {
            Ok(bytes) => Ok(Some(bytes)),
            Err(e) => Err(e),
        }
    }
}

} // verus!
