//! Failures that the library reports.

use vstd::prelude::*;
use vstd::string::*;
use crate::text::{decimal, decode_lossy, lossy_text, push_decimal};

verus! {

/// A process-wide lock that can be found poisoned.
#[derive(Clone, Copy, Debug, PartialEq, Eq, Structural)]
pub enum GlobalMutex {
    /// The lock around the dynamic configuration.
    Config,
}

impl GlobalMutex {
    /// The name under which the lock is reported.
    pub fn name(&self) -> (text: &'static str)
        ensures
            text@ == "CONFIG"@,
    {
        "CONFIG"
    }
}

/// What can go wrong in the library, or in the work done for it outside.
#[non_exhaustive]
#[derive(Clone, Debug, PartialEq, Eq)]
pub enum Error {
    /// An outside command ran and reported failure.
    CommandFailure {
        /// Its exit code, where it had one.
        code: Option<i32>,
        /// What it wrote to its error stream, where that was captured.
        stderr: Option<Vec<u8>>,
    },
    /// The working directory does not lie under the servers directory.
    InvalidServersDirectory,
    /// A session whose name does not end in the session suffix.
    InvalidServerSession(String),
    /// A last-used record that is not eight bytes long; holds the server.
    InvalidTimestampFile(String),
    /// The operating system refused an action; holds its words.
    Io(String),
    /// A directory that should exist does not.
    MissingDirectory {
        /// The directory's path.
        dir: String,
    },
    /// A file that should exist does not.
    MissingFile {
        /// The file's path.
        file: String,
    },
    /// The working directory is the servers directory itself.
    NoServerChild,
    /// The process runs in no session.
    NoSessionName,
    /// A platform has nothing of the kind that was asked for.
    PlatformsNotFound(String),
    /// A holder of the lock failed while it held it.
    GlobalMutexPoisoned(GlobalMutex),
    /// No remote-console settings are kept for the server.
    MissingRconConfig(String),
    /// The server to create is there already.
    ServerAlreadyExists(String),
    /// No server of that name is known.
    ServerNotFound(String),
    /// A variable that a path refers to could not be looked up; holds its name.
    ShellexpandLookup(String),
    /// The template to create is there already.
    TemplateAlreadyExists(String),
    /// A template cannot be deployed.
    TemplateDeployed,
    /// No template of that name is known.
    TemplateNotFound(String),
    /// A template cannot be made from a template.
    TemplateUsedForTemplate,
    /// The clock stands before the Unix epoch.
    TimeWentBackwards,
    /// A download address that is no URL; holds the address.
    UrlParse(String),
}

/// An exit code as it is shown: in decimal, with a minus sign where it is
/// negative.
pub open spec fn code_text(code: i32) -> Seq<char> {
    if code < 0 {
        "-"@ + decimal((-code) as nat)
    } else {
        decimal(code as nat)
    }
}

/// The words in which a failure is reported.
pub open spec fn message_text(error: Error) -> Seq<char> {
    match error {
        Error::CommandFailure { code, stderr } => "Command failed with code "@ + (match code {
            Some(code) => code_text(code),
            None => "none"@,
        }) + (match stderr {
            Some(bytes) => ": "@ + lossy_text(bytes@),
            None => ""@,
        }),
        Error::InvalidServersDirectory => "Invalid servers directory"@,
        Error::InvalidServerSession(session) => "Session "@ + session@
            + " is not the session of a server"@,
        Error::InvalidTimestampFile(server) => "Invalid last-used record of server "@ + server@,
        Error::Io(why) => why@,
        Error::MissingDirectory { dir } => "Missing directory: "@ + dir@,
        Error::MissingFile { file } => "Missing file: "@ + file@,
        Error::NoServerChild => "No server child was given"@,
        Error::NoSessionName => "Not inside a session"@,
        Error::PlatformsNotFound(what) => "Platforms not found: "@ + what@,
        Error::GlobalMutexPoisoned(_) => "Mutex CONFIG is poisoned"@,
        Error::MissingRconConfig(server) => "Rcon config is missing for server: "@ + server@,
        Error::ServerAlreadyExists(server) => "Server "@ + server@ + " already exists"@,
        Error::ServerNotFound(server) => "No server "@ + server@ + " was found"@,
        Error::ShellexpandLookup(name) => "error looking key '"@ + name@ + "' up"@,
        Error::TemplateAlreadyExists(server) => "Template "@ + server@ + " already exists"@,
        Error::TemplateDeployed => "A template cannot be deployed"@,
        Error::TemplateNotFound(name) => "Template with the name "@ + name@ + " was not found"@,
        Error::TemplateUsedForTemplate => "A template cannot be made from a template"@,
        Error::TimeWentBackwards => "The clock stands before the Unix epoch"@,
        Error::UrlParse(address) => "Invalid URL: "@ + address@,
    }
}

impl Error {
    /// The words in which the failure is reported.
    pub fn message(&self) -> (words: String)
        ensures
            words@ == message_text(*self),
    {
        match self {
            Error::CommandFailure { code, stderr } => {
                let mut words = "Command failed with code ".to_owned();
                match code {
                    Some(code) => {
                        if *code < 0 {
                            words.append("-");
                            push_decimal(&mut words, (-(*code as i64)) as u128);
                        } else {
                            push_decimal(&mut words, *code as u128);
                        }
                    },
                    None => {
                        words.append("none");
                    },
                }
                match stderr {
                    Some(bytes) => {
                        words.append(": ");
                        words.append(decode_lossy(bytes).as_str());
                    },
                    None => {
                        words.append("");
                    },
                }
                assert(words@ =~= message_text(*self));
                words
            },
            Error::InvalidServersDirectory => "Invalid servers directory".to_owned(),
            Error::InvalidServerSession(session) => {
                let mut words = "Session ".to_owned();
                words.append(session.as_str());
                words.append(" is not the session of a server");
                words
            },
            Error::InvalidTimestampFile(server) => {
                let mut words = "Invalid last-used record of server ".to_owned();
                words.append(server.as_str());
                words
            },
            Error::Io(why) => why.clone(),
            Error::MissingDirectory { dir } => {
                let mut words = "Missing directory: ".to_owned();
                words.append(dir.as_str());
                words
            },
            Error::MissingFile { file } => {
                let mut words = "Missing file: ".to_owned();
                words.append(file.as_str());
                words
            },
            Error::NoServerChild => "No server child was given".to_owned(),
            Error::NoSessionName => "Not inside a session".to_owned(),
            Error::PlatformsNotFound(what) => {
                let mut words = "Platforms not found: ".to_owned();
                words.append(what.as_str());
                words
            },
            Error::GlobalMutexPoisoned(_) => "Mutex CONFIG is poisoned".to_owned(),
            Error::MissingRconConfig(server) => {
                let mut words = "Rcon config is missing for server: ".to_owned();
                words.append(server.as_str());
                words
            },
            Error::ServerAlreadyExists(server) => {
                let mut words = "Server ".to_owned();
                words.append(server.as_str());
                words.append(" already exists");
                words
            },
            Error::ServerNotFound(server) => {
                let mut words = "No server ".to_owned();
                words.append(server.as_str());
                words.append(" was found");
                words
            },
            Error::ShellexpandLookup(name) => {
                let mut words = "error looking key '".to_owned();
                words.append(name.as_str());
                words.append("' up");
                words
            },
            Error::TemplateAlreadyExists(server) => {
                let mut words = "Template ".to_owned();
                words.append(server.as_str());
                words.append(" already exists");
                words
            },
            Error::TemplateDeployed => "A template cannot be deployed".to_owned(),
            Error::TemplateNotFound(name) => {
                let mut words = "Template with the name ".to_owned();
                words.append(name.as_str());
                words.append(" was not found");
                words
            },
            Error::TemplateUsedForTemplate => "A template cannot be made from a template".to_owned(),
            Error::TimeWentBackwards => "The clock stands before the Unix epoch".to_owned(),
            Error::UrlParse(address) => {
                let mut words = "Invalid URL: ".to_owned();
                words.append(address.as_str());
                words
            },
        }
    }
}

} // verus!
