//! Where the program comes from, and the arguments with which `cargo`
//! installs it from there.

use vstd::prelude::*;
use vstd::string::*;
use crate::text::texts;

verus! {

/// The repository of the program.
pub const REPO_URL: &'static str = "https://github.com/Finnian-Walsh/mc-server-cli";

/// The address to install from: the repository, or one of its commits.
pub open spec fn install_source(commit: Option<Seq<char>>) -> Seq<char> {
    match commit {
        Some(id) => REPO_URL@ + "/commit/"@ + id,
        None => REPO_URL@,
    }
}

/// The arguments that install the program from the repository, or from the
/// commit `commit` of it.
pub fn update_with_git(commit: Option<String>) -> (args: Vec<String>)
    ensures
        texts(args@) == seq![
            "install"@,
            "--git"@,
            install_source(
                match commit {
                    Some(id) => Some(id@),
                    None => None,
                },
            ),
            "--force"@,
        ],
{
    let mut source = REPO_URL.to_owned();
    match commit {
        Some(id) => {
            source.append("/commit/");
            source.append(id.as_str());
        },
        None => {},
    }
    let mut args: Vec<String> = Vec::new();
    args.push("install".to_owned());
    args.push("--git".to_owned());
    args.push(source);
    args.push("--force".to_owned());
    assert(texts(args@) =~= seq![
        "install"@,
        "--git"@,
        install_source(
            match commit {
                Some(id) => Some(id@),
                None => None,
            },
        ),
        "--force"@,
    ]);
    args
}

/// The arguments that install the program from the directory `path`.
pub fn update_with_path(path: &str) -> (args: Vec<String>)
    ensures
        texts(args@) == seq!["install"@, "--path"@, path@, "--force"@],
{
    let mut args: Vec<String> = Vec::new();
    args.push("install".to_owned());
    args.push("--path".to_owned());
    args.push(path.to_owned());
    args.push("--force".to_owned());
    assert(texts(args@) =~= seq!["install"@, "--path"@, path@, "--force"@]);
    args
}

} // verus!
