//! Sessions of `tmux`: its listing, and the servers sorted by it. A session
//! here has the name of its server.

use vstd::prelude::*;
use vstd::string::*;
use crate::error::Error;
use crate::names::NameSet;
use crate::session::{active_among, inactive_among, is_failure_of, retain_by, CommandOutput};
use crate::text::{
    chars_of, decode_lossy, find_char, first_index, lines, lossy_text, slice_of, split_lines,
    string_of, texts, views,
};

verus! {

/// The session that a line of the listing names: what stands before its
/// first colon. A line without a colon names none.
pub open spec fn listed_session(line: Seq<char>) -> Option<Seq<char>> {
    match first_index(line, ':') {
        Some(at) => Some(line.take(at)),
        None => None,
    }
}

/// The sessions that some of `lines` name, in the order of the lines.
pub open spec fn sessions_among(lines: Seq<Seq<char>>) -> Seq<Seq<char>> {
    lines.filter_map(|line: Seq<char>| listed_session(line))
}

/// The sessions that a listing reports: those of its output where it exits
/// with 0; with any other end the listing has failed.
pub open spec fn session_set(output: CommandOutput) -> Option<Set<Seq<char>>> {
    match output.code {
        Some(0) => Some(sessions_among(lines(lossy_text(output.stdout@))).to_set()),
        _ => None,
    }
}

/// Reads a listing: the set of the sessions that its lines name.
pub fn parse_sessions(text: &str) -> (sessions: NameSet)
    ensures
        sessions.wf(),
        sessions@ == sessions_among(lines(text@)).to_set(),
{
    let chars = chars_of(text);
    let all = split_lines(&chars);
    let mut sessions = NameSet::new();
    let mut i: usize = 0;
    assert(sessions_among(views(all@).take(0)) =~= Seq::<Seq<char>>::empty());
    assert(Seq::<Seq<char>>::empty().to_set() =~= Set::<Seq<char>>::empty());
    while i < all.len()
        invariant
            i <= all.len(),
            sessions.wf(),
            sessions@ == sessions_among(views(all@).take(i as int)).to_set(),
        decreases all.len() - i,
    {
        let ghost before = sessions_among(views(all@).take(i as int));
        proof {
            views(all@).lemma_filter_map_take_succ(
                |line: Seq<char>| listed_session(line),
                i as int,
            );
        }
        match find_char(&all[i], ':') {
            Some(at) => {
                let name = slice_of(&all[i], 0, at);
                proof {
                    assert(name@ =~= all@[i as int]@.take(at as int));
                    Seq::lemma_to_set_insert_commutes(before, name@);
                }
                sessions.insert(string_of(&name));
            },
            None => {
                assert(before + Seq::<Seq<char>>::empty() =~= before);
            },
        }
        i += 1;
    }
    assert(views(all@).take(all.len() as int) =~= views(all@));
    sessions
}

/// The set of the sessions, from what the listing command left behind.
pub fn get_sessions(output: &CommandOutput) -> (sessions: Result<NameSet, Error>)
    ensures
        match session_set(*output) {
            Some(names) => sessions matches Ok(set) && set.wf() && set@ == names,
            None => sessions matches Err(error) && is_failure_of(error, *output),
        },
{
    match output.code {
        Some(0) => {
            let text = decode_lossy(&output.stdout);
            Ok(parse_sessions(text.as_str()))
        },
        _ => Err(Error::CommandFailure { code: output.code, stderr: Some(output.stderr.clone()) }),
    }
}

/// Those of `servers` that have a session, in their order.
pub fn get_active_servers(servers: Vec<String>, sessions: &CommandOutput) -> (active: Result<
    Vec<String>,
    Error,
>)
    ensures
        match session_set(*sessions) {
            Some(alive) => active matches Ok(names) && texts(names@) == active_among(
                texts(servers@),
                alive,
            ),
            None => active matches Err(error) && is_failure_of(error, *sessions),
        },
{
    let alive = match get_sessions(sessions) {
        Ok(alive) => alive,
        Err(error) => {
            return Err(error);
        },
    };
    let mut servers = servers;
    retain_by(&mut servers, &alive, true);
    Ok(servers)
}

/// Those of `servers` that have no session, in their order.
pub fn get_inactive_servers(servers: Vec<String>, sessions: &CommandOutput) -> (inactive: Result<
    Vec<String>,
    Error,
>)
    ensures
        match session_set(*sessions) {
            Some(alive) => inactive matches Ok(names) && texts(names@) == inactive_among(
                texts(servers@),
                alive,
            ),
            None => inactive matches Err(error) && is_failure_of(error, *sessions),
        },
{
    let alive = match get_sessions(sessions) {
        Ok(alive) => alive,
        Err(error) => {
            return Err(error);
        },
    };
    let mut servers = servers;
    retain_by(&mut servers, &alive, false);
    Ok(servers)
}

} // verus!
