use mcserver::config::{
    expand_path, expansion, get_config_directory, get_current_server_directory, get_static,
    handle_server_arg, initial_config, AutoConfig, ServerArg, CONFIG_FILE,
};
use mcserver::config_defs::{
    get_default_dynamic_config, DynamicConfig, Password, RconConfig, RconTable,
};
use mcserver::error::{Error, GlobalMutex};

fn parts(words: &[&str]) -> Vec<String> {
    words.iter().map(|word| word.to_string()).collect()
}

fn entry(address: Option<&str>, port: Option<u16>, password: Option<&str>) -> RconConfig {
    RconConfig {
        server_address: address.map(|text| text.to_string()),
        port,
        password: password.map(|text| Password(text.to_string())),
    }
}

fn loaded_store() -> AutoConfig {
    let mut store = AutoConfig::new();
    let (config, _) = initial_config(None);
    store.install(config);
    store
}

#[test]
fn the_static_configuration_is_fixed() {
    let config = get_static();
    assert_eq!(config.contact, "none");
    assert_eq!(config.dynamic_config_path, "~/.config/mcserver");
    assert_eq!(CONFIG_FILE, "config.toml");
}

#[test]
fn the_default_configuration() {
    let config = get_default_dynamic_config();
    assert_eq!(config.default_java_args, "");
    assert!(!config.nogui);
    assert_eq!(config.servers_directory, "~/Servers");
    assert_eq!(config.default_server, "");
    assert_eq!(config.rcon.len(), 0);
    assert!(config.same_as(&get_default_dynamic_config()));
}

#[test]
fn a_password_is_shown_hidden() {
    assert_eq!(Password::HIDDEN, "(hidden)");
}

#[test]
fn the_first_load_takes_the_file_or_writes_the_defaults() {
    let (defaults, write) = initial_config(None);
    assert!(write);
    assert!(defaults.same_as(&get_default_dynamic_config()));
    let mut found = get_default_dynamic_config();
    found.default_server = "alpha".to_string();
    found.nogui = true;
    let (config, write) = initial_config(Some(found.clone()));
    assert!(!write);
    assert!(config.same_as(&found));
    assert!(!config.same_as(&get_default_dynamic_config()));
}

#[test]
fn a_new_store_holds_nothing_and_writes_nothing() {
    let store = AutoConfig::new();
    assert!(!store.is_loaded());
    assert!(matches!(store.get(), Ok(None)));
    assert!(matches!(store.write(), Ok(None)));
}

#[test]
fn config_load_default_write_cycle() {
    let mut store = AutoConfig::new();
    let (config, write_defaults) = initial_config(None);
    assert!(write_defaults);
    store.install(config);
    assert!(store.is_loaded());
    let held = store.get().unwrap().unwrap();
    assert!(held.same_as(&get_default_dynamic_config()));
    // Nothing was changed: the end of the program writes nothing, however
    // often it asks.
    assert!(matches!(store.write(), Ok(None)));
    assert!(matches!(store.write(), Ok(None)));
}

#[test]
fn a_store_keeps_what_was_loaded_first() {
    let mut store = loaded_store();
    let mut other = get_default_dynamic_config();
    other.default_server = "late".to_string();
    store.install(other);
    assert_eq!(store.get().unwrap().unwrap().default_server, "");
    assert!(matches!(store.write(), Ok(None)));
}

#[test]
fn a_changed_store_writes_its_configuration() {
    let mut store = loaded_store();
    assert_eq!(store.set_default_server("alpha".to_string()), Ok(true));
    assert_eq!(store.get().unwrap().unwrap().default_server, "alpha");
    let pending = store.write().unwrap().unwrap();
    let mut expected = get_default_dynamic_config();
    expected.default_server = "alpha".to_string();
    assert!(pending.same_as(&expected));
    // Set back to what was loaded: nothing to write again.
    assert_eq!(store.set_default_server(String::new()), Ok(true));
    assert!(matches!(store.write(), Ok(None)));
}

#[test]
fn setting_the_default_server_needs_a_loaded_store() {
    let mut store = AutoConfig::new();
    assert_eq!(store.set_default_server("alpha".to_string()), Ok(false));
    assert!(!store.is_loaded());
    assert!(matches!(store.write(), Ok(None)));
}

#[test]
fn a_poisoned_store_fails_explicitly() {
    let poisoned = Error::GlobalMutexPoisoned(GlobalMutex::Config);
    let mut store = loaded_store();
    store.poison();
    assert_eq!(store.get().err(), Some(poisoned.clone()));
    assert_eq!(store.set_default_server("alpha".to_string()), Err(poisoned.clone()));
    assert_eq!(store.write().err(), Some(poisoned.clone()));
    assert_eq!(store.get_expanded_servers_dir(), Err(poisoned.clone()));
    // Before the first load there is nothing to write, poisoned or not.
    let mut empty = AutoConfig::new();
    empty.poison();
    assert!(matches!(empty.write(), Ok(None)));
    assert_eq!(empty.get().err(), Some(poisoned));
}

#[test]
fn the_servers_directory_is_expanded_once() {
    let mut store = AutoConfig::new();
    assert_eq!(store.get_expanded_servers_dir(), Ok(None));
    let mut config = get_default_dynamic_config();
    config.servers_directory = "/srv/servers".to_string();
    store.install(config);
    assert_eq!(store.get_expanded_servers_dir(), Ok(Some("/srv/servers".to_string())));
    // The first expansion is kept, even for a poisoned store.
    store.poison();
    assert_eq!(store.get_expanded_servers_dir(), Ok(Some("/srv/servers".to_string())));
}

#[test]
fn the_servers_directory_of_an_unknown_variable() {
    let mut store = AutoConfig::new();
    let mut config = get_default_dynamic_config();
    config.servers_directory = "$MCSERVER_SURELY_NOT_SET_4711/servers".to_string();
    store.install(config);
    let failure = Error::ShellexpandLookup("MCSERVER_SURELY_NOT_SET_4711".to_string());
    assert_eq!(store.get_expanded_servers_dir(), Err(failure.clone()));
    assert_eq!(store.get_expanded_servers_dir(), Err(failure));
}

#[test]
fn expand_path_leaves_plain_paths_alone() {
    assert_eq!(expand_path("/srv/servers"), Ok("/srv/servers".to_string()));
    assert_eq!(expand_path(""), Ok(String::new()));
    assert_eq!(expand_path("a~b"), Ok("a~b".to_string()));
    assert_eq!(expand_path("~user/x"), Ok("~user/x".to_string()));
}

#[test]
fn expand_path_puts_values_in_place_of_variables() {
    let expanded = expand_path("${PATH}/servers").unwrap();
    assert!(expanded.ends_with("/servers"));
    assert!(!expanded.contains('$'));
    assert_ne!(expanded, "${PATH}/servers");
    assert_eq!(
        expand_path("${MCSERVER_SURELY_NOT_SET_4711}"),
        Err(Error::ShellexpandLookup("MCSERVER_SURELY_NOT_SET_4711".to_string()))
    );
    assert_eq!(expand_path("${MCSERVER_SURELY_NOT_SET_4711:-/srv}"), Ok("/srv".to_string()));
}

#[test]
fn expand_path_keeps_what_follows_the_tilde() {
    let expanded = expand_path("~/Servers").unwrap();
    assert!(expanded.ends_with("/Servers"));
    let directory = get_config_directory().unwrap();
    assert!(directory.ends_with("/.config/mcserver"));
}

#[test]
fn the_current_server_is_the_first_part_below_the_servers() {
    let root = parts(&["/", "home", "me", "Servers"]);
    assert_eq!(
        get_current_server_directory(&root, &parts(&["/", "home", "me", "Servers", "alpha"])),
        Ok("alpha".to_string())
    );
    assert_eq!(
        get_current_server_directory(
            &root,
            &parts(&["/", "home", "me", "Servers", "beta", "Server", "world"])
        ),
        Ok("beta".to_string())
    );
    assert_eq!(get_current_server_directory(&Vec::new(), &parts(&["x"])), Ok("x".to_string()));
}

#[test]
fn the_current_server_outside_the_servers() {
    let root = parts(&["/", "home", "me", "Servers"]);
    for current in [
        parts(&["/", "home", "me"]),
        parts(&["/", "home", "me", "Other", "alpha"]),
        parts(&["/", "home", "you", "Servers", "alpha"]),
        parts(&["home", "me", "Servers", "alpha"]),
        Vec::new(),
    ] {
        assert_eq!(
            get_current_server_directory(&root, &current),
            Err(Error::InvalidServersDirectory)
        );
    }
}

#[test]
fn the_current_server_at_the_servers_directory_itself() {
    let root = parts(&["/", "home", "me", "Servers"]);
    assert_eq!(get_current_server_directory(&root, &root.clone()), Err(Error::NoServerChild));
    assert_eq!(get_current_server_directory(&Vec::new(), &Vec::new()), Err(Error::NoServerChild));
}

#[test]
fn a_command_is_about_the_named_or_the_default_server() {
    assert_eq!(
        handle_server_arg(Some("alpha".to_string()), "beta"),
        ServerArg::Named("alpha".to_string())
    );
    assert_eq!(handle_server_arg(None, "beta"), ServerArg::Named("beta".to_string()));
    assert_eq!(handle_server_arg(None, ""), ServerArg::Named(String::new()));
    assert_eq!(handle_server_arg(Some(".".to_string()), "beta"), ServerArg::CurrentDirectory);
    assert_eq!(handle_server_arg(None, "."), ServerArg::CurrentDirectory);
    assert_eq!(handle_server_arg(Some("..".to_string()), "."), ServerArg::Named("..".to_string()));
}

#[test]
fn an_rcon_table_keeps_one_entry_for_each_server() {
    let mut table = RconTable::new();
    assert_eq!(table.len(), 0);
    assert!(table.get("alpha").is_none());
    table.insert("alpha".to_string(), entry(Some("localhost"), Some(25575), Some("secret")));
    table.insert("beta".to_string(), entry(None, None, None));
    assert_eq!(table.len(), 2);
    assert!(table.get("alpha").unwrap().same_as(&entry(Some("localhost"), Some(25575), Some("secret"))));
    assert!(table.get("beta").unwrap().same_as(&entry(None, None, None)));
    assert!(table.get("gamma").is_none());
    table.insert("alpha".to_string(), entry(Some("remote"), None, None));
    assert_eq!(table.len(), 2);
    assert!(table.get("alpha").unwrap().same_as(&entry(Some("remote"), None, None)));
    let (name, found) = table.entry(0);
    assert_eq!(name, "alpha");
    assert!(found.same_as(&entry(Some("remote"), None, None)));
    assert_eq!(table.entry(1).0, "beta");
}

#[test]
fn rcon_tables_are_the_same_whatever_the_order() {
    let mut first = RconTable::new();
    first.insert("alpha".to_string(), entry(Some("a"), Some(1), None));
    first.insert("beta".to_string(), entry(None, Some(2), Some("p")));
    let mut second = RconTable::new();
    second.insert("beta".to_string(), entry(None, Some(2), Some("p")));
    second.insert("alpha".to_string(), entry(Some("a"), Some(1), None));
    assert!(first.same_as(&second));
    assert!(second.same_as(&first));
    assert!(first.same_as(&first.duplicate()));
    second.insert("alpha".to_string(), entry(Some("a"), Some(3), None));
    assert!(!first.same_as(&second));
    let mut third = first.duplicate();
    third.insert("gamma".to_string(), entry(None, None, None));
    assert!(!first.same_as(&third));
    assert!(!third.same_as(&first));
    assert!(!first.same_as(&RconTable::new()));
}

#[test]
fn rcon_entries_differ_in_each_field() {
    let base = entry(Some("a"), Some(1), Some("p"));
    assert!(base.same_as(&base.duplicate()));
    assert!(!base.same_as(&entry(Some("b"), Some(1), Some("p"))));
    assert!(!base.same_as(&entry(None, Some(1), Some("p"))));
    assert!(!base.same_as(&entry(Some("a"), Some(2), Some("p"))));
    assert!(!base.same_as(&entry(Some("a"), None, Some("p"))));
    assert!(!base.same_as(&entry(Some("a"), Some(1), Some("q"))));
    assert!(!base.same_as(&entry(Some("a"), Some(1), None)));
}

#[test]
fn configurations_differ_in_each_field() {
    let base: DynamicConfig = get_default_dynamic_config();
    assert!(base.same_as(&base.duplicate()));
    let mut other = base.duplicate();
    other.default_java_args = "-Xmx2G".to_string();
    assert!(!base.same_as(&other));
    let mut other = base.duplicate();
    other.nogui = true;
    assert!(!base.same_as(&other));
    let mut other = base.duplicate();
    other.servers_directory = "/srv".to_string();
    assert!(!base.same_as(&other));
    let mut other = base.duplicate();
    other.default_server = "alpha".to_string();
    assert!(!base.same_as(&other));
    let mut other = base.duplicate();
    other.rcon.insert("alpha".to_string(), entry(None, None, None));
    assert!(!base.same_as(&other));
}

#[test]
fn an_expansion_fails_with_the_name_of_the_variable() {
    assert_eq!(expansion(Ok("/srv".to_string())), Ok("/srv".to_string()));
    assert_eq!(
        expansion(Err("HOME".to_string())),
        Err(Error::ShellexpandLookup("HOME".to_string()))
    );
}
