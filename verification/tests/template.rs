use mcserver::error::Error;
use mcserver::names::NameSet;
use mcserver::template::{from, get_server_path, is_template, new, FromTemplate, TEMPLATE_SUFFIX};

fn set_of(words: &[&str]) -> NameSet {
    let mut set = NameSet::new();
    for word in words {
        set.insert(word.to_string());
    }
    set
}

#[test]
fn a_template_ends_in_the_template_suffix() {
    assert_eq!(TEMPLATE_SUFFIX, ".template");
    assert!(is_template("alpha.template"));
    assert!(is_template(".template"));
    assert!(!is_template("alpha"));
    assert!(!is_template("alpha.template.bak"));
    assert!(!is_template("template"));
    assert!(!is_template(""));
}

#[test]
fn a_template_is_made_of_an_existing_server() {
    let all = set_of(&["alpha", "beta", "beta.template"]);
    assert_eq!(new("alpha", &all), Ok("alpha.template".to_string()));
    assert_eq!(new("beta", &all), Err(Error::TemplateAlreadyExists("beta".to_string())));
    assert_eq!(new("gamma", &all), Err(Error::ServerNotFound("gamma".to_string())));
    assert_eq!(new("beta.template", &all), Err(Error::TemplateUsedForTemplate));
    assert_eq!(new("gamma.template", &all), Err(Error::TemplateUsedForTemplate));
}

#[test]
fn the_first_free_name_is_taken() {
    assert_eq!(get_server_path(&set_of(&[]), "alpha"), "alpha");
    assert_eq!(get_server_path(&set_of(&["beta"]), "alpha"), "alpha");
    assert_eq!(get_server_path(&set_of(&["alpha"]), "alpha"), "alpha-2");
    assert_eq!(get_server_path(&set_of(&["alpha", "alpha-2", "alpha-3"]), "alpha"), "alpha-4");
    assert_eq!(get_server_path(&set_of(&["alpha", "alpha-3"]), "alpha"), "alpha-2");
    assert_eq!(get_server_path(&set_of(&["alpha", "alpha-1", "alpha-02"]), "alpha"), "alpha-2");
}

#[test]
fn free_names_go_past_ten() {
    let mut taken = vec!["w".to_string()];
    for number in 2..=11 {
        taken.push(format!("w-{number}"));
    }
    let mut set = NameSet::new();
    for name in taken {
        set.insert(name);
    }
    assert_eq!(get_server_path(&set, "w"), "w-12");
}

#[test]
fn a_server_is_made_from_a_template() {
    let all = set_of(&["alpha", "alpha.template", "base.template"]);
    assert_eq!(
        from("base", Some("gamma"), &all),
        Ok(FromTemplate { template: "base.template".to_string(), server: "gamma".to_string() })
    );
    assert_eq!(
        from("base.template", Some("gamma"), &all),
        Ok(FromTemplate { template: "base.template".to_string(), server: "gamma".to_string() })
    );
    assert_eq!(
        from("base", None, &all),
        Ok(FromTemplate { template: "base.template".to_string(), server: "base".to_string() })
    );
    assert_eq!(
        from("alpha", None, &all),
        Ok(FromTemplate { template: "alpha.template".to_string(), server: "alpha-2".to_string() })
    );
    assert_eq!(
        from("alpha.template", None, &all),
        Ok(FromTemplate {
            template: "alpha.template".to_string(),
            server: "alpha.template-2".to_string()
        })
    );
}

#[test]
fn a_server_from_a_template_can_fail() {
    let all = set_of(&["alpha", "alpha.template"]);
    assert_eq!(from("beta", Some("gamma"), &all), Err(Error::TemplateNotFound("beta".to_string())));
    assert_eq!(
        from("beta.template", None, &all),
        Err(Error::TemplateNotFound("beta.template".to_string()))
    );
    assert_eq!(
        from("alpha", Some("alpha"), &all),
        Err(Error::ServerAlreadyExists("alpha".to_string()))
    );
    // The template is looked for first.
    assert_eq!(from("beta", Some("alpha"), &all), Err(Error::TemplateNotFound("beta".to_string())));
}
