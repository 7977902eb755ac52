use mcserver::config_defs::{get_default_dynamic_config, Password, RconConfig};
use mcserver::error::{Error, GlobalMutex};
use mcserver::executables::Executable;
use mcserver::names::NameSet;
use mcserver::repo::{update_with_git, update_with_path, REPO_URL};
use mcserver::session::CommandOutput;
use mcserver::settings::{get_default, SettingsError};
use mcserver::text::{
    chars_of, char_is_space, contains, ends_with, find, find_char, occurs_at, push_decimal,
    rfind, slice_of, split_lines, string_of, trim_end,
};

fn listing(code: Option<i32>, stdout: &str, stderr: &str) -> CommandOutput {
    CommandOutput { code, stdout: stdout.as_bytes().to_vec(), stderr: stderr.as_bytes().to_vec() }
}

fn names(words: &[&str]) -> Vec<String> {
    words.iter().map(|word| word.to_string()).collect()
}

fn chars(text: &str) -> Vec<char> {
    text.chars().collect()
}

fn decimal(n: u128) -> String {
    let mut out = String::new();
    push_decimal(&mut out, n);
    out
}

#[test]
fn the_default_server_setting() {
    assert_eq!(get_default(Ok("alpha\n".to_string())), Ok("alpha".to_string()));
    assert_eq!(get_default(Ok("alpha".to_string())), Ok("alpha".to_string()));
    assert_eq!(get_default(Ok(" alpha \t\n".to_string())), Ok(" alpha".to_string()));
    assert_eq!(get_default(Ok("\n".to_string())), Ok(String::new()));
    assert_eq!(get_default(Ok(String::new())), Err(".default file is empty!".to_string()));
    assert_eq!(
        get_default(Err(SettingsError::Io("No such file".to_string()))),
        Err("IO error: No such file".to_string())
    );
    assert_eq!(
        get_default(Err(SettingsError::HomeDirFailure)),
        Err("Failed to get home dir".to_string())
    );
}

#[test]
fn the_paths_of_the_programs() {
    let separator = std::path::MAIN_SEPARATOR_STR;
    assert_eq!(
        mcserver::executables::get(Executable::Server, "release"),
        format!("target{separator}release{separator}server")
    );
    assert_eq!(
        mcserver::executables::get(Executable::Serverup, "debug"),
        format!("target{separator}debug{separator}serverup")
    );
    assert_eq!(
        mcserver::executables::get(Executable::ServerupUpdater, ""),
        format!("target{separator}{separator}serverup_updater")
    );
    assert_eq!(
        mcserver::executables::get_with(Executable::Server, "release", "/"),
        "target/release/server"
    );
    assert_eq!(
        mcserver::executables::get_with(Executable::ServerupUpdater, "debug", "\\"),
        "target\\debug\\serverup_updater"
    );
}

#[test]
fn the_arguments_of_the_remote_console() {
    assert_eq!(mcserver::rcon::BASE_COMMAND, "mcrcon");
    let mut config = get_default_dynamic_config();
    config.rcon.insert(
        "alpha".to_string(),
        RconConfig {
            server_address: Some("localhost".to_string()),
            port: Some(25575),
            password: Some(Password("secret".to_string())),
        },
    );
    config.rcon.insert(
        "beta".to_string(),
        RconConfig { server_address: None, port: Some(0), password: None },
    );
    config.rcon.insert(
        "gamma".to_string(),
        RconConfig { server_address: None, port: None, password: None },
    );
    assert_eq!(
        mcserver::rcon::run("alpha", &config, &names(&["say hi", "stop"])),
        Ok(names(&["-H", "localhost", "-P", "25575", "-p", "secret", "say hi", "stop"]))
    );
    assert_eq!(mcserver::rcon::run("beta", &config, &names(&["stop"])), Ok(names(&["-P", "0", "stop"])));
    assert_eq!(mcserver::rcon::run("gamma", &config, &Vec::new()), Ok(Vec::new()));
    assert_eq!(
        mcserver::rcon::run("delta", &config, &names(&["stop"])),
        Err(Error::MissingRconConfig("delta".to_string()))
    );
}

#[test]
fn the_short_listing_names_one_session_on_each_line() {
    let output = listing(Some(0), "alpha\ngamma\r\n", "");
    let sessions = mcserver::zellij::get_sessions(&output).unwrap();
    assert_eq!(sessions.to_vec(), names(&["alpha", "gamma"]));
    assert_eq!(mcserver::zellij::parse_sessions("a\na\n\nb").to_vec(), names(&["a", "", "b"]));
    assert_eq!(mcserver::zellij::get_sessions(&listing(Some(1), "x\n", "")).unwrap().len(), 0);
    assert_eq!(
        mcserver::zellij::get_sessions(&listing(Some(2), "x\n", "e")).unwrap_err(),
        Error::CommandFailure { code: Some(2), stderr: Some(b"e".to_vec()) }
    );
}

#[test]
fn the_short_listing_sorts_the_servers() {
    let output = listing(Some(0), "alpha\ngamma\n", "");
    let list = names(&["alpha", "beta", "gamma", "delta"]);
    let mut active = list.clone();
    mcserver::zellij::retain_active(&mut active, &output).unwrap();
    assert_eq!(active, names(&["alpha", "gamma"]));
    let mut inactive = list.clone();
    mcserver::zellij::retain_inactive(&mut inactive, &output).unwrap();
    assert_eq!(inactive, names(&["beta", "delta"]));
    let mut tagged = list.clone();
    mcserver::zellij::tag_active(&mut tagged, &output).unwrap();
    assert_eq!(tagged, names(&["alpha (active)", "beta", "gamma (active)", "delta"]));
    let failed = listing(None, "", "gone");
    let mut untouched = list.clone();
    assert!(mcserver::zellij::tag_active(&mut untouched, &failed).is_err());
    assert!(mcserver::zellij::retain_active(&mut untouched, &failed).is_err());
    assert!(mcserver::zellij::retain_inactive(&mut untouched, &failed).is_err());
    assert_eq!(untouched, list);
}

#[test]
fn the_tmux_listing_names_sessions_before_the_colon() {
    let text = "alpha: 1 windows (created Mon Jan  1 10:00:00 2024)\nbeta: 2 windows\nnocolon\n: x\n";
    assert_eq!(mcserver::tmux::parse_sessions(text).to_vec(), names(&["alpha", "beta", ""]));
    let output = listing(Some(0), text, "");
    assert_eq!(
        mcserver::tmux::get_active_servers(names(&["gamma", "beta", "alpha"]), &output),
        Ok(names(&["beta", "alpha"]))
    );
    assert_eq!(
        mcserver::tmux::get_inactive_servers(names(&["gamma", "beta", "alpha"]), &output),
        Ok(names(&["gamma"]))
    );
}

#[test]
fn the_tmux_listing_fails_with_any_other_exit() {
    let failed = listing(Some(1), "", "no server running");
    let expected =
        Error::CommandFailure { code: Some(1), stderr: Some(b"no server running".to_vec()) };
    assert_eq!(mcserver::tmux::get_sessions(&failed).unwrap_err(), expected);
    assert_eq!(mcserver::tmux::get_active_servers(names(&["a"]), &failed), Err(expected.clone()));
    assert_eq!(mcserver::tmux::get_inactive_servers(names(&["a"]), &failed), Err(expected));
}

#[test]
fn a_name_set_holds_each_name_once() {
    let mut set = NameSet::new();
    assert_eq!(set.len(), 0);
    assert!(set.insert("b".to_string()));
    assert!(set.insert("a".to_string()));
    assert!(!set.insert("b".to_string()));
    assert_eq!(set.len(), 2);
    assert!(set.contains(&"a".to_string()));
    assert!(!set.contains(&"c".to_string()));
    assert_eq!(set.to_vec(), names(&["b", "a"]));
}

#[test]
fn errors_have_messages() {
    let text = |error: Error| error.message();
    assert_eq!(
        text(Error::CommandFailure { code: Some(2), stderr: Some(b"boom".to_vec()) }),
        "Command failed with code 2: boom"
    );
    assert_eq!(
        text(Error::CommandFailure { code: Some(-17), stderr: None }),
        "Command failed with code -17"
    );
    assert_eq!(
        text(Error::CommandFailure { code: Some(i32::MIN), stderr: Some(vec![0xff]) }),
        "Command failed with code -2147483648: \u{fffd}"
    );
    assert_eq!(
        text(Error::CommandFailure { code: None, stderr: None }),
        "Command failed with code none"
    );
    assert_eq!(text(Error::InvalidServersDirectory), "Invalid servers directory");
    assert_eq!(text(Error::Io("denied".to_string())), "denied");
    assert_eq!(
        text(Error::MissingDirectory { dir: "/srv".to_string() }),
        "Missing directory: /srv"
    );
    assert_eq!(text(Error::MissingFile { file: "/x".to_string() }), "Missing file: /x");
    assert_eq!(text(Error::NoServerChild), "No server child was given");
    assert_eq!(text(Error::ServerNotFound("a".to_string())), "No server a was found");
    assert_eq!(text(Error::PlatformsNotFound("x".to_string())), "Platforms not found: x");
    assert_eq!(text(Error::GlobalMutexPoisoned(GlobalMutex::Config)), "Mutex CONFIG is poisoned");
    assert_eq!(GlobalMutex::Config.name(), "CONFIG");
    assert_eq!(
        text(Error::MissingRconConfig("a".to_string())),
        "Rcon config is missing for server: a"
    );
    assert_eq!(text(Error::TemplateAlreadyExists("a".to_string())), "Template a already exists");
    assert_eq!(
        text(Error::TemplateNotFound("a".to_string())),
        "Template with the name a was not found"
    );
    assert_eq!(
        text(Error::ShellexpandLookup("HOME".to_string())),
        "error looking key 'HOME' up"
    );
    for error in [
        Error::InvalidServerSession("s".to_string()),
        Error::InvalidTimestampFile("a".to_string()),
        Error::NoSessionName,
        Error::ServerAlreadyExists("a".to_string()),
        Error::TemplateDeployed,
        Error::TemplateUsedForTemplate,
        Error::TimeWentBackwards,
        Error::UrlParse("x".to_string()),
    ] {
        assert!(!text(error).is_empty());
    }
}

#[test]
fn text_is_searched_by_characters() {
    let line = chars("a(b)c(d)");
    assert_eq!(rfind(&line, &chars("(")), Some(5));
    assert_eq!(rfind(&line, &chars(")c")), Some(3));
    assert_eq!(rfind(&line, &chars("x")), None);
    assert_eq!(rfind(&line, &chars("")), Some(8));
    assert_eq!(rfind(&chars(""), &chars("")), Some(0));
    assert_eq!(rfind(&chars("ab"), &chars("abc")), None);
    assert_eq!(rfind(&chars("äöü"), &chars("ü")), Some(2));
    assert_eq!(find_char(&line, '('), Some(1));
    assert_eq!(find_char(&line, 'x'), None);
    assert!(contains(&line, &chars("c(d")));
    assert!(contains(&line, &chars("")));
    assert!(!contains(&line, &chars("dc")));
    assert!(occurs_at(&line, &chars("(b"), 1));
    assert!(!occurs_at(&line, &chars("(b"), 2));
    assert!(!occurs_at(&line, &chars("d)x"), 6));
    assert!(occurs_at(&line, &chars(""), 8));
    assert!(!occurs_at(&line, &chars(""), 9));
    assert!(ends_with(&line, &chars("(d)")));
    assert!(ends_with(&line, &chars("")));
    assert!(!ends_with(&line, &chars("a(b)c(d)x")));
    assert!(!ends_with(&line, &chars("(d")));
}

#[test]
fn text_is_cut_into_lines() {
    let cut = |text: &str| -> Vec<String> {
        split_lines(&chars(text)).iter().map(string_of).collect()
    };
    for text in [
        "", "\n", "a", "a\n", "a\nb", "a\r\nb\r\n", "a\rb\n", "a\n\nb\n", "\r\n", "a\r", "\r",
        "a\n\r", "\n\n", "x\r\r\ny",
    ] {
        let expected: Vec<String> = text.lines().map(|line| line.to_string()).collect();
        assert_eq!(cut(text), expected, "lines of {text:?}");
    }
    assert_eq!(cut("a\r\nb\r"), names(&["a", "b\r"]));
}

#[test]
fn text_is_copied_and_trimmed() {
    assert_eq!(chars_of("zoë"), chars("zoë"));
    assert_eq!(string_of(&chars("zoë")), "zoë");
    assert_eq!(slice_of(&chars("abcdef"), 2, 4), chars("cd"));
    assert_eq!(slice_of(&chars("abcdef"), 3, 3), chars(""));
    assert_eq!(trim_end(&chars("a b \n")), chars("a b"));
    assert_eq!(trim_end(&chars(" \t")), chars(""));
    let mut code = 0u32;
    while code <= 0x3100 {
        if let Some(c) = char::from_u32(code) {
            assert_eq!(char_is_space(c), c.is_whitespace(), "white space {code:#x}");
        }
        code += 1;
    }
    assert!(!char_is_space('\u{feff}'));
}

#[test]
fn numbers_are_written_in_decimal() {
    for n in [0u128, 1, 9, 10, 11, 99, 100, 101, 1_000_000, 18_446_744_073_709_551_615, u128::MAX] {
        assert_eq!(decimal(n), n.to_string());
    }
    let mut out = "n=".to_string();
    push_decimal(&mut out, 42);
    assert_eq!(out, "n=42");
}

#[test]
fn the_program_is_installed_from_its_repository() {
    assert_eq!(REPO_URL, "https://github.com/Finnian-Walsh/mc-server-cli");
    assert_eq!(
        update_with_git(None),
        names(&["install", "--git", "https://github.com/Finnian-Walsh/mc-server-cli", "--force"])
    );
    assert_eq!(
        update_with_git(Some("abc123".to_string())),
        names(&[
            "install",
            "--git",
            "https://github.com/Finnian-Walsh/mc-server-cli/commit/abc123",
            "--force"
        ])
    );
    assert_eq!(update_with_path("/src/cli"), names(&["install", "--path", "/src/cli", "--force"]));
}

#[test]
fn text_is_searched_from_the_front() {
    let line = chars("abcabc");
    assert_eq!(find(&line, &chars("bc")), Some(1));
    assert_eq!(find(&line, &chars("abc")), Some(0));
    assert_eq!(find(&line, &chars("c")), Some(2));
    assert_eq!(find(&line, &chars("ca")), Some(2));
    assert_eq!(find(&line, &chars("cb")), None);
    assert_eq!(find(&line, &chars("")), Some(0));
    assert_eq!(find(&chars(""), &chars("")), Some(0));
    assert_eq!(find(&chars(""), &chars("a")), None);
    assert_eq!(find(&chars("ab"), &chars("abc")), None);
}
