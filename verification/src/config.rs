//! The configuration store: one dynamic configuration per process, loaded
//! on first use and written back only where it has changed.

use vstd::prelude::*;
use vstd::string::*;
use crate::config_defs::{
    default_dynamic_config, get_default_dynamic_config, DynamicConfig, DynamicConfigView,
    StaticConfig,
};
use crate::error::{Error, GlobalMutex};
use crate::text::{has_suffix, texts};

verus! {

/// The file in the configuration directory that holds the dynamic
/// configuration.
pub const CONFIG_FILE: &'static str = "config.toml";

/// The static configuration that the program is built with.
pub fn get_static() -> (config: StaticConfig)
    ensures
        config.contact@ == "none"@,
        config.dynamic_config_path@ == "~/.config/mcserver"@,
{
    StaticConfig { contact: "none", dynamic_config_path: "~/.config/mcserver" }
}

/// `path` names a variable of the environment: it holds a `$`.
pub open spec fn names_variable(path: Seq<char>) -> bool {
    path.contains('$')
}

/// `text` can be what the expansion makes of `path`: where `path` names no
/// variable, it is `path` itself, or ends with what follows the `~` that
/// `path` begins with.
pub open spec fn is_expansion_of(text: Seq<char>, path: Seq<char>) -> bool {
    !names_variable(path) ==> (if path.len() > 0 && path[0] == '~' {
        has_suffix(text, path.skip(1))
    } else {
        text == path
    })
}

/// Calls `shellexpand::full`, which puts the home directory in place of a
/// leading `~` and the values of environment variables in place of `$NAME`
/// and `${NAME}`. What comes back depends on the environment; of every
/// outcome holds: a path without `$` is expanded, and stays as it is but
/// for a leading `~`, in whose place the home directory may stand. The
/// failure holds the name of the variable that could not be looked up.
#[verifier::external_body]
fn expand(path: &str) -> (expanded: Result<String, String>)
    ensures
        expanded matches Ok(text) ==> is_expansion_of(text@, path@),
        expanded is Err ==> names_variable(path@),
{
    match shellexpand::full(path) {
        Ok(text) => Ok(text.into_owned()),
        Err(error) => Err(error.var_name),
    }
}

/// Expands the home directory and the environment variables in `path`. A
/// path that names no variable is always expanded, and stays as it is but
/// for a leading `~`, in whose place the home directory may stand; any
/// other path is expanded or fails for a variable that could not be looked
/// up.
pub fn expand_path(path: &str) -> (expanded: Result<String, Error>)
    ensures
        expanded matches Ok(text) ==> is_expansion_of(text@, path@),
        expanded is Err ==> names_variable(path@) && expanded matches Err(
            Error::ShellexpandLookup(_),
        ),
{
    expansion(expand(path))
}

/// What an expansion comes to: the expanded path, or the failure for the
/// variable that could not be looked up.
pub fn expansion(outcome: Result<String, String>) -> (expanded: Result<String, Error>)
    ensures
        expanded == match outcome {
            Ok(text) => Ok::<String, Error>(text),
            Err(name) => Err(Error::ShellexpandLookup(name)),
        },
{
    match outcome {
        Ok(text) => Ok(text),
        Err(name) => Err(Error::ShellexpandLookup(name)),
    }
}

/// The directory of the dynamic configuration: the path of the static
/// configuration, with the home directory in place of its `~` where one is
/// known.
pub fn get_config_directory() -> (directory: Result<String, Error>)
    ensures
        directory matches Ok(path) && has_suffix(path@, "/.config/mcserver"@),
{
    let path = get_static().dynamic_config_path;
    proof {
        reveal_strlit("~/.config/mcserver");
        reveal_strlit("/.config/mcserver");
        assert(path@.skip(1) =~= "/.config/mcserver"@);
        assert(!names_variable(path@)) by {
            assert forall|i: int| 0 <= i < path@.len() implies path@[i] != '$' by {}
        }
    }
    expand_path(path)
}

/// The store, as contracts see it.
pub struct AutoConfigView {
    /// The configuration as it stands; none before the first load.
    pub value: Option<DynamicConfigView>,
    /// The configuration as it was loaded.
    pub initial_value: Option<DynamicConfigView>,
    /// Whether a holder of the store failed while it held it.
    pub poisoned: bool,
    /// The servers directory as it was first expanded.
    pub servers_dir: Option<Seq<char>>,
}

/// The store of the dynamic configuration. Whoever shares it between
/// threads keeps it behind a lock, and marks it poisoned where the lock is.
pub struct AutoConfig {
    value: Option<DynamicConfig>,
    initial_value: Option<DynamicConfig>,
    poisoned: bool,
    servers_dir: Option<String>,
}

/// The store before anything is loaded.
pub open spec fn empty_store() -> AutoConfigView {
    AutoConfigView { value: None, initial_value: None, poisoned: false, servers_dir: None }
}

/// The store after the first load has given `config`; a store that holds a
/// configuration keeps it.
pub open spec fn after_install(store: AutoConfigView, config: DynamicConfigView) -> AutoConfigView {
    if store.value is None {
        AutoConfigView { value: Some(config), initial_value: Some(config), ..store }
    } else {
        store
    }
}

/// What is to be written when the program ends: the configuration, where
/// it is not as it was loaded; nothing before the first load.
pub open spec fn pending_write(store: AutoConfigView) -> Option<DynamicConfigView> {
    if store.value is Some && store.value != store.initial_value {
        store.value
    } else {
        None
    }
}

/// A store that was loaded and not changed since has nothing to write,
/// whatever was loaded, and so has one into which nothing was loaded.
pub proof fn lemma_unchanged_store_writes_nothing(config: DynamicConfigView)
    ensures
        pending_write(empty_store()) is None,
        pending_write(after_install(empty_store(), config)) is None,
        after_install(after_install(empty_store(), config), config) == after_install(
            empty_store(),
            config,
        ),
{
}

/// A store in which the default server was set to another name than the
/// loaded one has its configuration to write.
pub proof fn lemma_changed_store_writes(config: DynamicConfigView, server: Seq<char>)
    requires
        server != config.default_server,
    ensures
        pending_write(
            AutoConfigView {
                value: Some(DynamicConfigView { default_server: server, ..config }),
                ..after_install(empty_store(), config)
            },
        ) == Some(DynamicConfigView { default_server: server, ..config }),
{
}

impl View for AutoConfig {
    type V = AutoConfigView;

    closed spec fn view(&self) -> AutoConfigView {
        AutoConfigView {
            value: match self.value {
                Some(config) => Some(config@),
                None => None,
            },
            initial_value: match self.initial_value {
                Some(config) => Some(config@),
                None => None,
            },
            poisoned: self.poisoned,
            servers_dir: match self.servers_dir {
                Some(dir) => Some(dir@),
                None => None,
            },
        }
    }
}

impl AutoConfig {
    /// The store holds a loaded configuration together with the one that
    /// stands, or neither.
    pub closed spec fn wf(&self) -> bool {
        &&& self.value is Some <==> self.initial_value is Some
        &&& self.value matches Some(config) ==> config.wf()
        &&& self.initial_value matches Some(config) ==> config.wf()
    }

    /// The store before anything is loaded.
    pub fn new() -> (store: AutoConfig)
        ensures
            store.wf(),
            store@ == empty_store(),
    {
        AutoConfig { value: None, initial_value: None, poisoned: false, servers_dir: None }
    }

    /// Tells whether a configuration was loaded.
    pub fn is_loaded(&self) -> (loaded: bool)
        ensures
            loaded == (self@.value is Some),
    {
        self.value.is_some()
    }

    /// Takes `config` as what the first load has given. A store that holds
    /// a configuration keeps it.
    pub fn install(&mut self, config: DynamicConfig)
        requires
            old(self).wf(),
            config.wf(),
        ensures
            final(self).wf(),
            final(self)@ == after_install(old(self)@, config@),
    {
        if self.value.is_none() {
            self.initial_value = Some(config.duplicate());
            self.value = Some(config);
        }
    }

    /// Marks the store as left behind by a holder that failed.
    pub fn poison(&mut self)
        requires
            old(self).wf(),
        ensures
            final(self).wf(),
            final(self)@ == (AutoConfigView { poisoned: true, ..old(self)@ }),
    {
        self.poisoned = true;
    }

    /// The configuration as it stands; none before the first load. A
    /// poisoned store gives nothing but the failure.
    pub fn get(&self) -> (found: Result<Option<&DynamicConfig>, Error>)
        requires
            self.wf(),
        ensures
            self@.poisoned ==> found matches Err(Error::GlobalMutexPoisoned(GlobalMutex::Config)),
            !self@.poisoned ==> (found matches Ok(config) && match config {
                Some(config) => config.wf() && self@.value == Some(config@),
                None => self@.value is None,
            }),
    {
        if self.poisoned {
            return Err(Error::GlobalMutexPoisoned(GlobalMutex::Config));
        }
        Ok(self.value.as_ref())
    }

    /// Sets the default server, and tells whether there was a configuration
    /// to set it in. A poisoned store is left as it is.
    pub fn set_default_server(&mut self, server: String) -> (done: Result<bool, Error>)
        requires
            old(self).wf(),
        ensures
            final(self).wf(),
            old(self)@.poisoned ==> (done matches Err(
                Error::GlobalMutexPoisoned(GlobalMutex::Config),
            )) && final(self)@ == old(self)@,
            !old(self)@.poisoned ==> done == Ok::<bool, Error>(old(self)@.value is Some),
            !old(self)@.poisoned ==> final(self)@ == (AutoConfigView {
                value: match old(self)@.value {
                    Some(config) => Some(DynamicConfigView { default_server: server@, ..config }),
                    None => None,
                },
                ..old(self)@
            }),
    {
        if self.poisoned {
            return Err(Error::GlobalMutexPoisoned(GlobalMutex::Config));
        }
        match self.value.take() {
            Some(config) => {
                self.value = Some(
                    DynamicConfig {
                        default_java_args: config.default_java_args,
                        nogui: config.nogui,
                        servers_directory: config.servers_directory,
                        default_server: server,
                        rcon: config.rcon,
                    },
                );
                Ok(true)
            },
            None => Ok(false),
        }
    }

    /// What is to be written when the program ends: nothing before the
    /// first load; else, unless the store is poisoned, the configuration
    /// where it is not as it was loaded.
    pub fn write(&self) -> (pending: Result<Option<DynamicConfig>, Error>)
        requires
            self.wf(),
        ensures
            self@.value is None ==> pending matches Ok(None),
            self@.value is Some && self@.poisoned ==> pending matches Err(
                Error::GlobalMutexPoisoned(GlobalMutex::Config),
            ),
            self@.value is Some && !self@.poisoned ==> (pending matches Ok(config) && match config {
                Some(config) => config.wf() && pending_write(self@) == Some(config@),
                None => pending_write(self@) is None,
            }),
    {
        match (&self.value, &self.initial_value) {
            (Some(value), Some(initial_value)) => {
                if self.poisoned {
                    return Err(Error::GlobalMutexPoisoned(GlobalMutex::Config));
                }
                if initial_value.same_as(value) {
                    Ok(None)
                } else {
                    Ok(Some(value.duplicate()))
                }
            },
            _ => Ok(None),
        }
    }

    /// The servers directory, expanded. The first expansion is kept and
    /// given again from then on, whatever becomes of the configuration;
    /// until then the directory of the configuration is expanded, which
    /// may fail, and there is none before the first load.
    pub fn get_expanded_servers_dir(&mut self) -> (directory: Result<Option<String>, Error>)
        requires
            old(self).wf(),
        ensures
            final(self).wf(),
            final(self)@.value == old(self)@.value,
            final(self)@.initial_value == old(self)@.initial_value,
            final(self)@.poisoned == old(self)@.poisoned,
            match old(self)@.servers_dir {
                Some(kept) => final(self)@ == old(self)@ && (directory matches Ok(Some(path))
                    && path@ == kept),
                None => match directory {
                    Ok(Some(path)) => final(self)@.servers_dir == Some(path@) && !old(
                        self,
                    )@.poisoned && (old(self)@.value matches Some(config) && is_expansion_of(
                        path@,
                        config.servers_directory,
                    )),
                    Ok(None) => final(self)@ == old(self)@ && !old(self)@.poisoned && old(
                        self,
                    )@.value is None,
                    Err(error) => final(self)@ == old(self)@ && (if old(self)@.poisoned {
                        error == Error::GlobalMutexPoisoned(GlobalMutex::Config)
                    } else {
                        error matches Error::ShellexpandLookup(_) && (old(self)@.value matches Some(
                            config,
                        ) && names_variable(config.servers_directory))
                    }),
                },
            },
    {
        match &self.servers_dir {
            Some(kept) => {
                return Ok(Some(kept.clone()));
            },
            None => {},
        }
        if self.poisoned {
            return Err(Error::GlobalMutexPoisoned(GlobalMutex::Config));
        }
        let expanded = match &self.value {
            Some(config) => expand_path(config.servers_directory.as_str()),
            None => {
                return Ok(None);
            },
        };
        match expanded {
            Ok(path) => {
                self.servers_dir = Some(path.clone());
                Ok(Some(path))
            },
            Err(error) => Err(error),
        }
    }
}

/// What the first load gives: the configuration that was found on disk,
/// or, where none was found, the defaults, which are then to be written
/// at once.
pub fn initial_config(found: Option<DynamicConfig>) -> (loaded: (DynamicConfig, bool))
    requires
        found matches Some(config) ==> config.wf(),
    ensures
        loaded.0.wf(),
        loaded.1 == (found is None),
        loaded.0@ == match found {
            Some(config) => config@,
            None => default_dynamic_config(),
        },
{
    match found {
        Some(config) => (config, false),
        None => (get_default_dynamic_config(), true),
    }
}

/// The server that the directory `current` belongs to, where `root` is the
/// servers directory: the first part of `current` below `root`. Both are
/// given as the parts of their paths.
pub open spec fn server_below(root: Seq<Seq<char>>, current: Seq<Seq<char>>) -> Option<Seq<char>> {
    if root.is_prefix_of(current) && root.len() < current.len() {
        Some(current[root.len() as int])
    } else {
        None
    }
}

/// Names the server in whose directory the caller stands. `servers_dir`
/// and `current_dir` hold the parts of the two paths, outermost first.
pub fn get_current_server_directory(servers_dir: &Vec<String>, current_dir: &Vec<String>) -> (server:
    Result<String, Error>)
    ensures
        match server {
            Ok(name) => server_below(texts(servers_dir@), texts(current_dir@)) == Some(name@),
            Err(Error::InvalidServersDirectory) => !texts(servers_dir@).is_prefix_of(
                texts(current_dir@),
            ),
            Err(Error::NoServerChild) => texts(servers_dir@) == texts(current_dir@),
            Err(_) => false,
        },
{
    let ghost root = texts(servers_dir@);
    let ghost current = texts(current_dir@);
    if servers_dir.len() > current_dir.len() {
        return Err(Error::InvalidServersDirectory);
    }
    let mut i: usize = 0;
    while i < servers_dir.len()
        invariant
            i <= servers_dir.len() <= current_dir.len(),
            root == texts(servers_dir@),
            current == texts(current_dir@),
            forall|j: int| 0 <= j < i ==> root[j] == current[j],
        decreases servers_dir.len() - i,
    {
        if servers_dir[i] != current_dir[i] {
            assert(current.subrange(0, root.len() as int)[i as int] != root[i as int]);
            return Err(Error::InvalidServersDirectory);
        }
        i += 1;
    }
    assert(current.subrange(0, root.len() as int) =~= root);
    if current_dir.len() == servers_dir.len() {
        assert(current =~= root);
        return Err(Error::NoServerChild);
    }
    Ok(current_dir[servers_dir.len()].clone())
}

/// The server that a command is about.
#[derive(Clone, Debug, PartialEq, Eq)]
pub enum ServerArg {
    /// The server of this name.
    Named(String),
    /// The server in whose directory the caller stands.
    CurrentDirectory,
}

/// The name that a command is about: the one it was given, or else the
/// default server.
pub open spec fn chosen_server(server: Option<Seq<char>>, default_server: Seq<char>) -> Seq<char> {
    match server {
        Some(name) => name,
        None => default_server,
    }
}

/// Settles which server a command is about: the one that it names, or the
/// default server where it names none; the name `.` stands for the server
/// in whose directory the caller stands.
pub fn handle_server_arg(server: Option<String>, default_server: &str) -> (arg: ServerArg)
    ensures
        match arg {
            ServerArg::Named(name) => name@ == chosen_server(
                match server {
                    Some(given) => Some(given@),
                    None => None,
                },
                default_server@,
            ) && name@ != "."@,
            ServerArg::CurrentDirectory => chosen_server(
                match server {
                    Some(given) => Some(given@),
                    None => None,
                },
                default_server@,
            ) == "."@,
        },
{
    let name = match server {
        Some(given) => given,
        None => default_server.to_owned(),
    };
    if name == ".".to_owned() {
        ServerArg::CurrentDirectory
    } else {
        ServerArg::Named(name)
    }
}

} // verus!
