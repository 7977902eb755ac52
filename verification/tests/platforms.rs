use mcserver::error::Error;
use mcserver::platforms::fabric::{first_stable, Entry, Versions};
use mcserver::platforms::paper::{builds_url, chosen_version, Application};
use mcserver::platforms::purpur::version_url;
use mcserver::platforms::{check_url, requested_version, Platform};

fn entry(version: &str, stable: bool) -> Entry {
    Entry { version: version.to_string(), stable }
}

fn versions() -> Versions {
    Versions {
        game: vec![entry("1.22-pre1", false), entry("1.21.4", true), entry("1.21.3", true)],
        loader: vec![entry("0.17.0-beta", false), entry("0.16.9", true)],
        installer: vec![entry("1.0.1", true), entry("1.0.0", true)],
    }
}

#[test]
fn platforms_have_names() {
    assert_eq!(Platform::Fabric.name(), "fabric");
    assert_eq!(Platform::Forge.name(), "forge");
    assert_eq!(Platform::Neoforge.name(), "neoforge");
    assert_eq!(Platform::Paper.name(), "paper");
    assert_eq!(Platform::Purpur.name(), "purpur");
    assert!(Platform::Fabric.is_supported());
    assert!(Platform::Paper.is_supported());
    assert!(Platform::Purpur.is_supported());
    assert!(!Platform::Forge.is_supported());
    assert!(!Platform::Neoforge.is_supported());
    assert!(Platform::Fabric < Platform::Purpur);
}

#[test]
fn latest_is_no_version() {
    assert_eq!(requested_version(None), None);
    assert_eq!(requested_version(Some("latest".to_string())), None);
    assert_eq!(requested_version(Some("1.21".to_string())), Some("1.21".to_string()));
    assert_eq!(requested_version(Some("Latest".to_string())), Some("Latest".to_string()));
    assert_eq!(requested_version(Some(String::new())), Some(String::new()));
}

#[test]
fn the_first_stable_entry_is_found() {
    assert_eq!(first_stable(&versions().game), Some(&entry("1.21.4", true)));
    assert_eq!(first_stable(&versions().installer), Some(&entry("1.0.1", true)));
    assert_eq!(first_stable(&vec![entry("a", false), entry("b", false)]), None);
    assert_eq!(first_stable(&Vec::new()), None);
}

#[test]
fn the_fabric_jar_address() {
    assert_eq!(
        mcserver::platforms::fabric::get(&versions(), None),
        Ok("https://meta.fabricmc.net/v2/versions/loader/1.21.4/0.16.9/1.0.1/server/jar".to_string())
    );
    assert_eq!(
        mcserver::platforms::fabric::get(&versions(), Some("1.20.1".to_string())),
        Ok("https://meta.fabricmc.net/v2/versions/loader/1.20.1/0.16.9/1.0.1/server/jar".to_string())
    );
}

#[test]
fn the_fabric_jar_address_needs_stable_versions() {
    let missing = |what: &str| Err(Error::PlatformsNotFound(what.to_string()));
    let mut none = versions();
    none.game = vec![entry("1.22-pre1", false)];
    none.loader.clear();
    none.installer.clear();
    assert_eq!(mcserver::platforms::fabric::get(&none, None), missing("stable game version"));
    assert_eq!(
        mcserver::platforms::fabric::get(&none, Some("1.21".to_string())),
        missing("stable loader")
    );
    none.loader = versions().loader;
    assert_eq!(mcserver::platforms::fabric::get(&none, None), missing("stable game version"));
    assert_eq!(
        mcserver::platforms::fabric::get(&none, Some("1.21".to_string())),
        missing("stable installer")
    );
}

#[test]
fn the_paper_addresses() {
    let listed = vec!["1.20".to_string(), "1.21".to_string()];
    assert_eq!(chosen_version(None, &listed), "1.21");
    assert_eq!(chosen_version(Some("1.19".to_string()), &listed), "1.19");
    assert_eq!(chosen_version(Some("1.19".to_string()), &Vec::new()), "1.19");
    assert_eq!(
        builds_url("1.21"),
        "https://api.papermc.io/v2/projects/paper/versions/1.21/builds"
    );
    let builds = vec![
        Application { name: "paper-1.21-1.jar".to_string(), sha256: "aa".to_string() },
        Application { name: "paper-1.21-2.jar".to_string(), sha256: "bb".to_string() },
    ];
    assert_eq!(
        mcserver::platforms::paper::get(&builds),
        "https://fill-data.papermc.io/v1/objects/bb/paper-1.21-2.jar"
    );
}

#[test]
fn the_purpur_addresses() {
    assert_eq!(version_url("1.21.4"), "https://api.purpurmc.org/v2/purpur/1.21.4");
    assert_eq!(
        mcserver::platforms::purpur::get("1.21.4", "2400"),
        "https://api.purpurmc.org/v2/purpur/1.21.4/2400/download"
    );
}

#[test]
fn a_download_address_has_to_be_a_url() {
    assert_eq!(
        mcserver::platforms::get("https://example.com/a.jar"),
        Ok("https://example.com/a.jar".to_string())
    );
    // The parser writes the URL in its normal form.
    assert_eq!(
        mcserver::platforms::get("HTTPS://Example.COM/a/../b.jar"),
        Ok("https://example.com/b.jar".to_string())
    );
    assert_eq!(
        mcserver::platforms::get("https://example.com"),
        Ok("https://example.com/".to_string())
    );
    assert_eq!(
        mcserver::platforms::get("not a url"),
        Err(Error::UrlParse("not a url".to_string()))
    );
    assert_eq!(mcserver::platforms::get(""), Err(Error::UrlParse(String::new())));
}

#[test]
fn the_check_of_an_address_follows_the_parser() {
    assert_eq!(check_url("x", Some("https://x/".to_string())), Ok("https://x/".to_string()));
    assert_eq!(check_url("x", None), Err(Error::UrlParse("x".to_string())));
}
