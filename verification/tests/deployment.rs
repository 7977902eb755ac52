use mcserver::config_defs::get_default_dynamic_config;
use mcserver::deployment::{
    get_command, get_server_dir, get_server_jar_name, get_server_jar_path, jar_name, restart,
    JAR_FILE_NOTE, SERVER_DIRECTORY,
};
use mcserver::error::Error;

#[test]
fn the_names_inside_a_server_directory() {
    assert_eq!(JAR_FILE_NOTE, "jarfile.txt");
    assert_eq!(SERVER_DIRECTORY, "Server");
}

#[test]
fn the_command_line_of_a_server() {
    let mut config = get_default_dynamic_config();
    config.default_java_args = "-Xmx4G".to_string();
    config.nogui = true;
    assert_eq!(
        get_command("alpha", "/srv/alpha/Server", "/srv/alpha/Server/paper.jar", &config),
        Ok("zellij action rename-tab Server && cd /srv/alpha/Server && java -jar -Xmx4G /srv/alpha/Server/paper.jar nogui && zellij kill-session $ZELLIJ_SESSION_NAME".to_string())
    );
}

#[test]
fn the_command_line_with_the_default_configuration() {
    let config = get_default_dynamic_config();
    assert_eq!(
        get_command("alpha", "d", "j", &config),
        Ok("zellij action rename-tab Server && cd d && java -jar  j  && zellij kill-session $ZELLIJ_SESSION_NAME".to_string())
    );
}

#[test]
fn a_template_is_not_deployed() {
    let config = get_default_dynamic_config();
    assert_eq!(get_command("alpha.template", "d", "j", &config), Err(Error::TemplateDeployed));
}

#[test]
fn the_jar_name_is_the_note_without_its_end() {
    assert_eq!(jar_name("paper-1.21.jar\n"), "paper-1.21.jar");
    assert_eq!(jar_name("paper.jar \t\r\n\n"), "paper.jar");
    assert_eq!(jar_name("  paper.jar"), "  paper.jar");
    assert_eq!(jar_name("a b\u{a0}\u{3000}\u{2003}\u{85}"), "a b");
    assert_eq!(jar_name("x\u{200b}"), "x\u{200b}");
    assert_eq!(jar_name(" \n "), "");
    assert_eq!(jar_name(""), "");
    for note in ["a \u{1680}", "a\u{2028}\u{2029}", "a\u{202f}\u{205f}", "a\u{b}\u{c}", "a\u{1c}b\u{1f}"] {
        assert_eq!(jar_name(note), note.trim_end());
    }
}

#[test]
fn restart_finds_the_server_of_the_session() {
    assert_eq!(restart(Some("alpha.mcserver".to_string())), Ok("alpha".to_string()));
    assert_eq!(restart(None), Err(Error::NoSessionName));
    assert_eq!(
        restart(Some("scratch".to_string())),
        Err(Error::InvalidServerSession("scratch".to_string()))
    );
}

#[test]
fn a_server_needs_its_directory_and_its_jar() {
    assert_eq!(get_server_dir("/srv/a/Server".to_string(), true), Ok("/srv/a/Server".to_string()));
    assert_eq!(
        get_server_dir("/srv/a/Server".to_string(), false),
        Err(Error::MissingDirectory { dir: "/srv/a/Server".to_string() })
    );
    assert_eq!(
        get_server_jar_name("/srv/a/Server/jarfile.txt", Some("paper.jar\n")),
        Ok("paper.jar".to_string())
    );
    assert_eq!(
        get_server_jar_name("/srv/a/Server/jarfile.txt", None),
        Err(Error::MissingFile { file: "/srv/a/Server/jarfile.txt".to_string() })
    );
    assert_eq!(get_server_jar_path("/srv/a/p.jar".to_string(), true), Ok("/srv/a/p.jar".to_string()));
    assert_eq!(
        get_server_jar_path("/srv/a/p.jar".to_string(), false),
        Err(Error::MissingFile { file: "/srv/a/p.jar".to_string() })
    );
}
