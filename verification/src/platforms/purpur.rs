//! Purpur: the download address of a server jar.

use vstd::prelude::*;
use vstd::string::*;

verus! {

/// Where the Purpur service describes the project.
pub const BASE_API_URL: &'static str = "https://api.purpurmc.org/v2/purpur";

/// The address at which the service describes a version.
pub fn version_url(version: &str) -> (url: String)
    ensures
        url@ == BASE_API_URL@ + "/"@ + version@,
{
    let mut url = BASE_API_URL.to_owned();
    url.append("/");
    url.append(version);
    url
}

/// The address of the jar of the build `latest` of a version.
pub fn get(version: &str, latest: &str) -> (url: String)
    ensures
        url@ == BASE_API_URL@ + "/"@ + version@ + "/"@ + latest@ + "/download"@,
{
    let mut url = version_url(version);
    url.append("/");
    url.append(latest);
    url.append("/download");
    url
}

} // verus!
