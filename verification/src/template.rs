//! Templates: servers kept as patterns for new servers. A template is a
//! server whose name ends in the template suffix.

use vstd::prelude::*;
use vstd::string::*;
use crate::error::Error;
use crate::names::NameSet;
use crate::text::{
    chars_of, decimal, ends_with, has_suffix, lemma_decimal_injective, lemma_decimal_len,
    push_decimal,
};

verus! {

/// What the name of a template ends in.
pub const TEMPLATE_SUFFIX: &'static str = ".template";

/// Tells whether `server` is the name of a template.
pub fn is_template(server: &str) -> (template: bool)
    ensures
        template == has_suffix(server@, TEMPLATE_SUFFIX@),
{
    let name = chars_of(server);
    let suffix = chars_of(TEMPLATE_SUFFIX);
    ends_with(&name, &suffix)
}

/// The name of the template of `server`.
pub open spec fn template_name(server: Seq<char>) -> Seq<char> {
    server + TEMPLATE_SUFFIX@
}

/// The name of the template to make of `server`, of which `all_servers`
/// are the directories that exist. A template gives no template, the
/// server has to exist, and its template must not exist yet.
pub fn new(server: &str, all_servers: &NameSet) -> (template: Result<String, Error>)
    ensures
        match template {
            Ok(name) => name@ == template_name(server@) && !has_suffix(
                server@,
                TEMPLATE_SUFFIX@,
            ) && all_servers@.contains(server@) && !all_servers@.contains(name@),
            Err(Error::TemplateUsedForTemplate) => has_suffix(server@, TEMPLATE_SUFFIX@),
            Err(Error::ServerNotFound(name)) => name@ == server@ && !has_suffix(
                server@,
                TEMPLATE_SUFFIX@,
            ) && !all_servers@.contains(server@),
            Err(Error::TemplateAlreadyExists(name)) => name@ == server@ && !has_suffix(
                server@,
                TEMPLATE_SUFFIX@,
            ) && all_servers@.contains(server@) && all_servers@.contains(template_name(server@)),
            Err(_) => false,
        },
{
    if is_template(server) {
        return Err(Error::TemplateUsedForTemplate);
    }
    let name = server.to_owned();
    if !all_servers.contains(&name) {
        return Err(Error::ServerNotFound(name));
    }
    let mut template = server.to_owned();
    template.append(TEMPLATE_SUFFIX);
    if all_servers.contains(&template) {
        return Err(Error::TemplateAlreadyExists(name));
    }
    Ok(template)
}

/// The name that is tried as the `number`th for a new server called
/// `name`: `name` itself first, then `name-2`, `name-3` and so on.
pub open spec fn candidate(name: Seq<char>, number: nat) -> Seq<char> {
    if number <= 1 {
        name
    } else {
        name + "-"@ + decimal(number)
    }
}

/// Two candidates of different numbers are different names.
pub proof fn lemma_candidates_differ(name: Seq<char>, a: nat, b: nat)
    requires
        1 <= a < b,
    ensures
        candidate(name, a) != candidate(name, b),
{
    reveal_strlit("-");
    lemma_decimal_len(b);
    let after = name + "-"@ + decimal(b);
    if a == 1 {
        assert(after.len() > name.len());
    } else {
        let before = name + "-"@ + decimal(a);
        if before == after {
            assert(before.skip(name.len() as int + 1) =~= decimal(a));
            assert(after.skip(name.len() as int + 1) =~= decimal(b));
            lemma_decimal_injective(a, b);
        }
    }
}

/// A finite set that holds the first `count` candidates has at least
/// `count` names.
pub proof fn lemma_candidates_fill(name: Seq<char>, taken: Set<Seq<char>>, count: nat)
    requires
        taken.finite(),
        forall|k: nat| 1 <= k <= count ==> taken.contains(#[trigger] candidate(name, k)),
    ensures
        count <= taken.len(),
    decreases count,
{
    if count > 0 {
        let last = candidate(name, count);
        let rest = taken.remove(last);
        assert forall|k: nat| 1 <= k <= count - 1 implies rest.contains(
            #[trigger] candidate(name, k),
        ) by {
            lemma_candidates_differ(name, k, count);
        }
        lemma_candidates_fill(name, rest, (count - 1) as nat);
    }
}

/// The first candidate for `name` that is not among `existing`.
pub fn get_server_path(existing: &NameSet, name: &str) -> (free: String)
    requires
        existing.wf(),
    ensures
        !existing@.contains(free@),
        exists|number: nat|
            1 <= number && free@ == #[trigger] candidate(name@, number) && forall|k: nat|
                1 <= k < number ==> existing@.contains(#[trigger] candidate(name@, k)),
{
    let first = name.to_owned();
    if !existing.contains(&first) {
        assert(first@ == candidate(name@, 1));
        return first;
    }
    let limit = existing.len();
    let mut number: u128 = 2;
    loop
        invariant
            2 <= number <= limit + 2,
            limit == existing@.len(),
            existing@.finite(),
            forall|k: nat| 1 <= k < number ==> existing@.contains(#[trigger] candidate(name@, k)),
        decreases limit + 2 - number,
    {
        let mut free = name.to_owned();
        free.append("-");
        push_decimal(&mut free, number);
        assert(free@ == candidate(name@, number as nat));
        if !existing.contains(&free) {
            return free;
        }
        proof {
            lemma_candidates_fill(name@, existing@, number as nat);
        }
        number += 1;
    }
}

/// The name that the template `template` has on disk: the word itself
/// where it ends in the template suffix, and else the word followed by it.
pub open spec fn template_directory(template: Seq<char>) -> Seq<char> {
    if has_suffix(template, TEMPLATE_SUFFIX@) {
        template
    } else {
        template_name(template)
    }
}

/// What to copy to make a server from a template: the directory of the
/// template, and the name of the new server.
#[derive(Clone, Debug, PartialEq, Eq)]
pub struct FromTemplate {
    pub template: String,
    pub server: String,
}

/// Plans a new server from `template`, where `all_servers` are the
/// directories that exist. The template has to exist. The server gets the
/// name `server`, which must not exist yet, or, where none is given, the
/// first candidate for the template's word that does not exist.
pub fn from(template: &str, server: Option<&str>, all_servers: &NameSet) -> (plan: Result<
    FromTemplate,
    Error,
>)
    requires
        all_servers.wf(),
    ensures
        match plan {
            Ok(found) => found.template@ == template_directory(template@)
                && all_servers@.contains(found.template@) && !all_servers@.contains(
                found.server@,
            ) && match server {
                Some(name) => found.server@ == name@,
                None => exists|number: nat|
                    1 <= number && found.server@ == #[trigger] candidate(template@, number)
                        && forall|k: nat|
                        1 <= k < number ==> all_servers@.contains(
                            #[trigger] candidate(template@, k),
                        ),
            },
            Err(Error::TemplateNotFound(name)) => name@ == template@ && !all_servers@.contains(
                template_directory(template@),
            ),
            Err(Error::ServerAlreadyExists(name)) => all_servers@.contains(
                template_directory(template@),
            ) && (server matches Some(given) && given@ == name@ && all_servers@.contains(name@)),
            Err(_) => false,
        },
{
    let mut directory = template.to_owned();
    if !is_template(template) {
        directory.append(TEMPLATE_SUFFIX);
    }
    if !all_servers.contains(&directory) {
        return Err(Error::TemplateNotFound(template.to_owned()));
    }
    let name = match server {
        Some(given) => {
            let name = given.to_owned();
            if all_servers.contains(&name) {
                return Err(Error::ServerAlreadyExists(name));
            }
            name
        },
        None => get_server_path(all_servers, template),
    };
    Ok(FromTemplate { template: directory, server: name })
}

} // verus!
