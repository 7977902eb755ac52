//! The programs that a build puts out, and where it puts them.

use vstd::prelude::*;
use vstd::string::*;

verus! {

/// A program of this project.
#[derive(Clone, Copy, Debug, PartialEq, Eq, Structural)]
pub enum Executable {
    Server,
    Serverup,
    ServerupUpdater,
}

/// The file name of a program.
pub open spec fn file_name(executable: Executable) -> Seq<char> {
    match executable {
        Executable::Server => "server"@,
        Executable::Serverup => "serverup"@,
        Executable::ServerupUpdater => "serverup_updater"@,
    }
}

/// The path of a program below the project, with `separator` between its
/// parts.
pub open spec fn executable_path(
    executable: Executable,
    build_mode: Seq<char>,
    separator: Seq<char>,
) -> Seq<char> {
    "target"@ + separator + build_mode + separator + file_name(executable)
}

/// `std::path::MAIN_SEPARATOR_STR`: what parts the components of a path
/// on this system, a slash or a backslash.
#[verifier::external_body]
fn separator() -> (mark: &'static str)
    ensures
        mark@ == "/"@ || mark@ == "\\"@,
{
    std::path::MAIN_SEPARATOR_STR
}

/// The path at which a build of the mode `build_mode` puts a program, on
/// this system.
pub fn get(executable: Executable, build_mode: &str) -> (path: String)
    ensures
        path@ == executable_path(executable, build_mode@, "/"@) || path@ == executable_path(
            executable,
            build_mode@,
            "\\"@,
        ),
{
    get_with(executable, build_mode, separator())
}

/// The path at which a build of the mode `build_mode` puts a program,
/// with `separator` between its parts.
pub fn get_with(executable: Executable, build_mode: &str, separator: &str) -> (path: String)
    ensures
        path@ == executable_path(executable, build_mode@, separator@),
{
    let mut path = "target".to_owned();
    path.append(separator);
    path.append(build_mode);
    path.append(separator);
    path.append(
        match executable {
            Executable::Server => "server",
            Executable::Serverup => "serverup",
            Executable::ServerupUpdater => "serverup_updater",
        },
    );
    path
}

} // verus!
