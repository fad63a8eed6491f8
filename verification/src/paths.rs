//! Where the configuration is kept when no path is given.

use vstd::prelude::*;

verus! {

/// The way from the user's home directory to the configuration's file:
/// two directories, then the file's name.
pub fn default_config_subpath() -> (parts: [&'static str; 3])
    ensures
        parts[0]@ == ".config"@,
        parts[1]@ == "ferium"@,
        parts[2]@ == "config.json"@,
{
    [".config", "ferium", "config.json"]
}

} // verus!
