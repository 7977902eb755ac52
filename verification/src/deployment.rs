//! Deployment: the command line that runs a server inside its session.

use vstd::prelude::*;
use vstd::string::*;
use crate::config_defs::DynamicConfig;
use crate::error::Error;
use crate::session::{get_server, server_name, BASE_COMMAND};
use crate::template::{is_template, TEMPLATE_SUFFIX};
use crate::text::{chars_of, has_suffix, string_of, trim_end, trimmed_end};

verus! {

/// The file in a server's directory that names its jar.
pub const JAR_FILE_NOTE: &'static str = "jarfile.txt";

/// The directory inside a server's directory in which the server runs.
pub const SERVER_DIRECTORY: &'static str = "Server";

/// The name of the jar that a server's note names: the note without the
/// white space at its end.
pub fn jar_name(note: &str) -> (name: String)
    ensures
        name@ == trimmed_end(note@),
{
    let chars = chars_of(note);
    let trimmed = trim_end(&chars);
    string_of(&trimmed)
}

/// The directory in which a server runs, where `is_directory` tells
/// whether there is a directory at `server_dir`.
pub fn get_server_dir(server_dir: String, is_directory: bool) -> (found: Result<String, Error>)
    ensures
        found == if is_directory {
            Ok::<String, Error>(server_dir)
        } else {
            Err(Error::MissingDirectory { dir: server_dir })
        },
{
    if !is_directory {
        return Err(Error::MissingDirectory { dir: server_dir });
    }
    Ok(server_dir)
}

/// The name of a server's jar, from the note at `note_path` that names it;
/// `note` holds what the note says, where there is such a file.
pub fn get_server_jar_name(note_path: &str, note: Option<&str>) -> (name: Result<String, Error>)
    ensures
        match note {
            Some(text) => name matches Ok(jar) && jar@ == trimmed_end(text@),
            None => name matches Err(Error::MissingFile { file }) && file@ == note_path@,
        },
{
    match note {
        Some(text) => Ok(jar_name(text)),
        None => Err(Error::MissingFile { file: note_path.to_owned() }),
    }
}

/// The path of a server's jar, where `is_file` tells whether there is a
/// file at `jar_path`.
pub fn get_server_jar_path(jar_path: String, is_file: bool) -> (found: Result<String, Error>)
    ensures
        found == if is_file {
            Ok::<String, Error>(jar_path)
        } else {
            Err(Error::MissingFile { file: jar_path })
        },
{
    if !is_file {
        return Err(Error::MissingFile { file: jar_path });
    }
    Ok(jar_path)
}

/// The line that runs a server in its session: it names the tab, enters
/// the directory, starts Java on the jar with the configured arguments,
/// and ends the session when the server has stopped.
pub open spec fn command_line(
    server_dir: Seq<char>,
    jar_path: Seq<char>,
    java_args: Seq<char>,
    nogui: bool,
) -> Seq<char> {
    BASE_COMMAND@ + " action rename-tab Server && cd "@ + server_dir + " && java -jar "@
        + java_args + " "@ + jar_path + " "@ + (if nogui {
        "nogui"@
    } else {
        ""@
    }) + " && "@ + BASE_COMMAND@ + " kill-session $ZELLIJ_SESSION_NAME"@
}

/// The line that runs `server`, whose directory is `server_dir` and whose
/// jar is at `jar_path`. A template is not deployed.
pub fn get_command(server: &str, server_dir: &str, jar_path: &str, config: &DynamicConfig) -> (command:
    Result<String, Error>)
    ensures
        match command {
            Ok(line) => !has_suffix(server@, TEMPLATE_SUFFIX@) && line@ == command_line(
                server_dir@,
                jar_path@,
                config.default_java_args@,
                config.nogui,
            ),
            Err(Error::TemplateDeployed) => has_suffix(server@, TEMPLATE_SUFFIX@),
            Err(_) => false,
        },
{
    if is_template(server) {
        return Err(Error::TemplateDeployed);
    }
    let mut line = BASE_COMMAND.to_owned();
    line.append(" action rename-tab Server && cd ");
    line.append(server_dir);
    line.append(" && java -jar ");
    line.append(config.default_java_args.as_str());
    line.append(" ");
    line.append(jar_path);
    line.append(" ");
    line.append(
        if config.nogui {
            "nogui"
        } else {
            ""
        },
    );
    line.append(" && ");
    line.append(BASE_COMMAND);
    line.append(" kill-session $ZELLIJ_SESSION_NAME");
    Ok(line)
}

/// The server to start again from inside its session, whose name the
/// environment gives as `session_name`.
pub fn restart(session_name: Option<String>) -> (server: Result<String, Error>)
    ensures
        match session_name {
            None => server matches Err(Error::NoSessionName),
            Some(session) => match server_name(session@) {
                Some(name) => server matches Ok(found) && found@ == name,
                None => server matches Err(Error::InvalidServerSession(named)) && named@
                    == session@,
            },
        },
{
    let session = match session_name {
        Some(session) => session,
        None => {
            return Err(Error::NoSessionName);
        },
    };
    match get_server(session.as_str()) {
        Some(server) => Ok(server),
        None => Err(Error::InvalidServerSession(session)),
    }
}

} // verus!
