//! The platforms that a server can be made for, and where their jars are
//! downloaded from.

use vstd::prelude::*;
use vstd::string::*;
use crate::error::Error;

pub mod fabric;
pub mod paper;
pub mod purpur;

verus! {

/// A kind of server.
#[derive(Copy, Clone, PartialEq, Eq, PartialOrd, Ord, Debug, Structural)]
pub enum Platform {
    Fabric,
    Forge,
    Neoforge,
    Paper,
    Purpur,
}

/// A platform's name in lower case.
pub open spec fn platform_name(platform: Platform) -> Seq<char> {
    match platform {
        Platform::Fabric => "fabric"@,
        Platform::Forge => "forge"@,
        Platform::Neoforge => "neoforge"@,
        Platform::Paper => "paper"@,
        Platform::Purpur => "purpur"@,
    }
}

impl Platform {
    /// The platform's name in lower case.
    pub fn name(&self) -> (name: &'static str)
        ensures
            name@ == platform_name(*self),
    {
        match self {
            Platform::Fabric => "fabric",
            Platform::Forge => "forge",
            Platform::Neoforge => "neoforge",
            Platform::Paper => "paper",
            Platform::Purpur => "purpur",
        }
    }

    /// Tells whether jars of the platform can be downloaded.
    pub fn is_supported(&self) -> (supported: bool)
        ensures
            supported == (*self == Platform::Fabric || *self == Platform::Paper || *self
                == Platform::Purpur),
    {
        match self {
            Platform::Fabric | Platform::Paper | Platform::Purpur => true,
            Platform::Forge | Platform::Neoforge => false,
        }
    }
}

/// The version that was asked for: none where no version was named, and
/// none where the word `latest` was.
pub fn requested_version(version: Option<String>) -> (asked: Option<String>)
    ensures
        asked == match version {
            Some(word) => if word@ == "latest"@ {
                None
            } else {
                Some(word)
            },
            None => None,
        },
{
    match version {
        Some(word) => if word == "latest".to_owned() {
            None
        } else {
            Some(word)
        },
        None => None,
    }
}

/// The text of a string, where there is one.
pub open spec fn text_of(word: Option<String>) -> Option<Seq<char>> {
    match word {
        Some(text) => Some(text@),
        None => None,
    }
}

/// The URL, in its normal form, that `Url::parse` of the crate `url` reads
/// from `text`; none where it reads no URL from it.
pub uninterp spec fn parsed_url(text: Seq<char>) -> Option<Seq<char>>;

/// Calls `Url::parse` and hands back the URL as text; the result is the
/// named one.
#[verifier::external_body]
fn parse_url(text: &str) -> (url: Option<String>)
    ensures
        text_of(url) == parsed_url(text@),
{
    url::Url::parse(text).ok().map(String::from)
}

/// Checks a download address: gives the URL that it is, in its normal
/// form, or fails with the address where it is none.
pub fn get(download_url: &str) -> (url: Result<String, Error>)
    ensures
        match parsed_url(download_url@) {
            Some(address) => url matches Ok(text) && text@ == address,
            None => url matches Err(Error::UrlParse(text)) && text@ == download_url@,
        },
{
    check_url(download_url, parse_url(download_url))
}

/// What the check of the address `download_url` comes to, where `parsed`
/// is what the parser made of it.
pub fn check_url(download_url: &str, parsed: Option<String>) -> (url: Result<String, Error>)
    ensures
        match parsed {
            Some(address) => url == Ok::<String, Error>(address),
            None => url matches Err(Error::UrlParse(text)) && text@ == download_url@,
        },
{
    match parsed {
        Some(address) => Ok(address),
        None => Err(Error::UrlParse(download_url.to_owned())),
    }
}

} // verus!
