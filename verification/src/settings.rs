//! Settings kept one to a file, in the servers directory under the home
//! directory.

use vstd::prelude::*;
use vstd::string::*;
use crate::text::{chars_of, string_of, trim_end, trimmed_end};

verus! {

/// Why a setting could not be read.
#[derive(Clone, Debug, PartialEq, Eq)]
pub enum SettingsError {
    /// The file could not be read; holds the operating system's words.
    Io(String),
    /// The home directory is not known.
    HomeDirFailure,
}

/// The default server, from what the reading of its setting gave: the
/// setting without the white space at its end. An empty setting and a
/// failed reading give the words that say so.
pub fn get_default(setting: Result<String, SettingsError>) -> (default: Result<String, String>)
    ensures
        match setting {
            Ok(value) => if value@.len() == 0 {
                default matches Err(words) && words@ == ".default file is empty!"@
            } else {
                default matches Ok(name) && name@ == trimmed_end(value@)
            },
            Err(SettingsError::Io(why)) => default matches Err(words) && words@ == "IO error: "@
                + why@,
            Err(SettingsError::HomeDirFailure) => default matches Err(words) && words@
                == "Failed to get home dir"@,
        },
{
    match setting {
        Ok(value) => {
            let chars = chars_of(value.as_str());
            if chars.len() == 0 {
                return Err(".default file is empty!".to_owned());
            }
            let trimmed = trim_end(&chars);
            Ok(string_of(&trimmed))
        },
        Err(SettingsError::Io(why)) => {
            let mut words = "IO error: ".to_owned();
            words.append(why.as_str());
            Err(words)
        },
        Err(SettingsError::HomeDirFailure) => Err("Failed to get home dir".to_owned()),
    }
}

} // verus!
