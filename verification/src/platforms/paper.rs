//! Paper: the download address of a server jar, from the builds that the
//! Paper service lists.

use vstd::prelude::*;
use vstd::string::*;

verus! {

/// Where the Paper service describes the project.
pub const BASE_API_URL: &'static str = "https://api.papermc.io/v2/projects/paper";

/// Where the jars are downloaded from.
pub const BASE_DOWNLOAD_URL: &'static str = "https://fill-data.papermc.io/v1/objects";

/// The jar of a build.
#[derive(Clone, Debug, PartialEq, Eq)]
pub struct Application {
    pub name: String,
    pub sha256: String,
}

/// The version to download: the one that was asked for, or else the last
/// of those that the service lists.
pub fn chosen_version(version: Option<String>, versions: &Vec<String>) -> (chosen: String)
    requires
        version is None ==> versions.len() > 0,
    ensures
        chosen@ == match version {
            Some(word) => word@,
            None => versions[versions.len() - 1]@,
        },
{
    match version {
        Some(word) => word,
        None => versions[versions.len() - 1].clone(),
    }
}

/// The address at which the service lists the builds of a version.
pub fn builds_url(version: &str) -> (url: String)
    ensures
        url@ == BASE_API_URL@ + "/versions/"@ + version@ + "/builds"@,
{
    let mut url = BASE_API_URL.to_owned();
    url.append("/versions/");
    url.append(version);
    url.append("/builds");
    url
}

/// The address of the jar of the last of `builds`.
pub fn get(builds: &Vec<Application>) -> (url: String)
    requires
        builds.len() > 0,
    ensures
        url@ == BASE_DOWNLOAD_URL@ + "/"@ + builds[builds.len() - 1].sha256@ + "/"@
            + builds[builds.len() - 1].name@,
{
    let application = &builds[builds.len() - 1];
    let mut url = BASE_DOWNLOAD_URL.to_owned();
    url.append("/");
    url.append(application.sha256.as_str());
    url.append("/");
    url.append(application.name.as_str());
    url
}

} // verus!
