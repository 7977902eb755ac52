//! Fabric: the download address of a server jar, from the versions that
//! the Fabric service lists.

use vstd::prelude::*;
use vstd::string::*;
use crate::error::Error;

verus! {

/// Where the Fabric service lists its versions.
pub const BASE_API_URL: &'static str = "https://meta.fabricmc.net/v2/versions";

/// A version that the service lists.
#[derive(Clone, Debug, PartialEq, Eq)]
pub struct Entry {
    pub version: String,
    pub stable: bool,
}

/// The versions that the service lists, newest first.
#[derive(Clone, Debug, PartialEq, Eq)]
pub struct Versions {
    pub game: Vec<Entry>,
    pub loader: Vec<Entry>,
    pub installer: Vec<Entry>,
}

/// The position of the first stable entry at or after `from`, if any.
pub open spec fn first_stable_from(entries: Seq<Entry>, from: int) -> Option<int>
    decreases entries.len() - from,
{
    if from >= entries.len() {
        None
    } else if entries[from].stable {
        Some(from)
    } else {
        first_stable_from(entries, from + 1)
    }
}

/// The version of the first stable entry, if any.
pub open spec fn first_stable_version(entries: Seq<Entry>) -> Option<Seq<char>> {
    match first_stable_from(entries, 0) {
        Some(at) => Some(entries[at].version@),
        None => None,
    }
}

/// The first stable entry of a list.
pub fn first_stable(entries: &Vec<Entry>) -> (found: Option<&Entry>)
    ensures
        match found {
            Some(entry) => first_stable_from(entries@, 0) matches Some(at) && 0 <= at
                < entries.len() && entries[at] == *entry,
            None => first_stable_from(entries@, 0) is None,
        },
{
    let mut i: usize = 0;
    while i < entries.len()
        invariant
            i <= entries.len(),
            first_stable_from(entries@, 0) == first_stable_from(entries@, i as int),
        decreases entries.len() - i,
    {
        if entries[i].stable {
            return Some(&entries[i]);
        }
        i += 1;
    }
    None
}

/// The address of the server jar for a game, a loader and an installer.
pub open spec fn jar_url(game: Seq<char>, loader: Seq<char>, installer: Seq<char>) -> Seq<char> {
    BASE_API_URL@ + "/loader/"@ + game + "/"@ + loader + "/"@ + installer + "/server/jar"@
}

/// The game version to download for: the one that was asked for, or else
/// the first stable one that is listed.
pub open spec fn chosen_game(versions: Versions, game_version: Option<String>) -> Option<Seq<char>> {
    match game_version {
        Some(version) => Some(version@),
        None => first_stable_version(versions.game@),
    }
}

/// The address of the server jar: for the chosen game version, and the
/// first stable loader and installer. Where one of the three is missing
/// the failure names the first that is, in this order.
pub fn get(versions: &Versions, game_version: Option<String>) -> (url: Result<String, Error>)
    ensures
        match (
            chosen_game(*versions, game_version),
            first_stable_version(versions.loader@),
            first_stable_version(versions.installer@),
        ) {
            (Some(game), Some(loader), Some(installer)) => url matches Ok(text) && text@
                == jar_url(game, loader, installer),
            (None, _, _) => url matches Err(Error::PlatformsNotFound(what)) && what@
                == "stable game version"@,
            (Some(_), None, _) => url matches Err(Error::PlatformsNotFound(what)) && what@
                == "stable loader"@,
            (Some(_), Some(_), None) => url matches Err(Error::PlatformsNotFound(what)) && what@
                == "stable installer"@,
        },
{
    let game = match game_version {
        Some(version) => version,
        None => match first_stable(&versions.game) {
            Some(entry) => entry.version.clone(),
            None => {
                return Err(Error::PlatformsNotFound("stable game version".to_owned()));
            },
        },
    };
    let loader = match first_stable(&versions.loader) {
        Some(entry) => &entry.version,
        None => {
            return Err(Error::PlatformsNotFound("stable loader".to_owned()));
        },
    };
    let installer = match first_stable(&versions.installer) {
        Some(entry) => &entry.version,
        None => {
            return Err(Error::PlatformsNotFound("stable installer".to_owned()));
        },
    };
    let mut url = BASE_API_URL.to_owned();
    url.append("/loader/");
    url.append(game.as_str());
    url.append("/");
    url.append(loader.as_str());
    url.append("/");
    url.append(installer.as_str());
    url.append("/server/jar");
    Ok(url)
}

} // verus!
