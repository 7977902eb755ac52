//! The multiplexer's short listing: one session on each line, and the
//! servers sorted by it. A session here has the name of its server.

use vstd::prelude::*;
use vstd::string::*;
use crate::error::Error;
use crate::names::NameSet;
use crate::session::{active_among, inactive_among, is_failure_of, retain_by, CommandOutput};
use crate::text::{
    chars_of, decode_lossy, lines, lossy_text, split_lines, string_of, texts, views,
};

verus! {

/// The sessions that a short listing reports: the lines of its output
/// where it exits with 0, none where it exits with the code for "no
/// sessions"; with any other end the listing has failed.
pub open spec fn session_set(output: CommandOutput) -> Option<Set<Seq<char>>> {
    match output.code {
        Some(0) => Some(lines(lossy_text(output.stdout@)).to_set()),
        Some(1) => Some(Set::empty()),
        _ => None,
    }
}

/// The set of the lines of `text`.
pub fn parse_sessions(text: &str) -> (sessions: NameSet)
    ensures
        sessions.wf(),
        sessions@ == lines(text@).to_set(),
{
    let chars = chars_of(text);
    let all = split_lines(&chars);
    let mut sessions = NameSet::new();
    let mut i: usize = 0;
    assert(views(all@).take(0).to_set() =~= Set::<Seq<char>>::empty());
    while i < all.len()
        invariant
            i <= all.len(),
            sessions.wf(),
            sessions@ == views(all@).take(i as int).to_set(),
        decreases all.len() - i,
    {
        proof {
            assert(views(all@).take(i + 1) =~= views(all@).take(i as int).push(all@[i as int]@));
            views(all@).take(i as int).lemma_push_to_set_commute(all@[i as int]@);
        }
        sessions.insert(string_of(&all[i]));
        i += 1;
    }
    assert(views(all@).take(all.len() as int) =~= views(all@));
    sessions
}

/// The set of the sessions, from what the short listing left behind.
pub fn get_sessions(output: &CommandOutput) -> (sessions: Result<NameSet, Error>)
    ensures
        match session_set(*output) {
            Some(names) => sessions matches Ok(set) && set.wf() && set@ == names,
            None => sessions matches Err(error) && is_failure_of(error, *output),
        },
{
    match output.code {
        Some(0) => {
            let text = decode_lossy(&output.stdout);
            Ok(parse_sessions(text.as_str()))
        },
        Some(1) => Ok(NameSet::new()),
        _ => Err(Error::CommandFailure { code: output.code, stderr: Some(output.stderr.clone()) }),
    }
}

/// Keeps of `servers` those that have a session. Where the listing has
/// failed the list stays as it is.
pub fn retain_active(servers: &mut Vec<String>, sessions: &CommandOutput) -> (done: Result<
    (),
    Error,
>)
    ensures
        match session_set(*sessions) {
            Some(alive) => done is Ok && texts(final(servers)@) == active_among(
                texts(old(servers)@),
                alive,
            ),
            None => (done matches Err(error) && is_failure_of(error, *sessions))
                && final(servers)@ == old(servers)@,
        },
{
    match get_sessions(sessions) {
        Ok(alive) => {
            retain_by(servers, &alive, true);
            Ok(())
        },
        Err(error) => Err(error),
    }
}

/// Keeps of `servers` those that have no session. Where the listing has
/// failed the list stays as it is.
pub fn retain_inactive(servers: &mut Vec<String>, sessions: &CommandOutput) -> (done: Result<
    (),
    Error,
>)
    ensures
        match session_set(*sessions) {
            Some(alive) => done is Ok && texts(final(servers)@) == inactive_among(
                texts(old(servers)@),
                alive,
            ),
            None => (done matches Err(error) && is_failure_of(error, *sessions))
                && final(servers)@ == old(servers)@,
        },
{
    match get_sessions(sessions) {
        Ok(alive) => {
            retain_by(servers, &alive, false);
            Ok(())
        },
        Err(error) => Err(error),
    }
}

/// The names of a list, those in `alive` followed by ` (active)`.
pub open spec fn active_marked(servers: Seq<Seq<char>>, alive: Set<Seq<char>>) -> Seq<Seq<char>> {
    Seq::new(
        servers.len(),
        |i: int|
            if alive.contains(servers[i]) {
                servers[i] + " (active)"@
            } else {
                servers[i]
            },
    )
}

/// Appends ` (active)` to each of `servers` that has a session. Where the
/// listing has failed the list stays as it is.
pub fn tag_active(servers: &mut Vec<String>, sessions: &CommandOutput) -> (done: Result<(), Error>)
    ensures
        match session_set(*sessions) {
            Some(alive) => done is Ok && texts(final(servers)@) == active_marked(
                texts(old(servers)@),
                alive,
            ),
            None => (done matches Err(error) && is_failure_of(error, *sessions))
                && final(servers)@ == old(servers)@,
        },
{
    let alive = match get_sessions(sessions) {
        Ok(alive) => alive,
        Err(error) => {
            return Err(error);
        },
    };
    let ghost names = texts(servers@);
    let mut all: Vec<String> = Vec::new();
    let mut i: usize = 0;
    while i < servers.len()
        invariant
            i <= servers.len(),
            names == texts(servers@),
            all.len() == i,
            forall|k: int|
                0 <= k < i ==> (#[trigger] all@[k])@ == active_marked(names, alive@)[k],
        decreases servers.len() - i,
    {
        let mut server = servers[i].clone();
        if alive.contains(&servers[i]) {
            server.append(" (active)");
        }
        all.push(server);
        i += 1;
    }
    assert(texts(all@) =~= active_marked(names, alive@));
    *servers = all;
    Ok(())
}

} // verus!
