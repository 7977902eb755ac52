//! Sessions of the terminal multiplexer: how they are named, which of them
//! are alive, and how a list of servers is sorted by that.

use vstd::prelude::*;
use vstd::string::*;
use crate::error::Error;
use crate::names::NameSet;
use crate::server::{age_text, elapsed, get_last_used, le_value, LastUsedRecord};
use crate::text::{
    chars_of, contains, decode_lossy, ends_with, has_suffix, last_match, lines, lossy_text,
    occurs_in, rfind, slice_of, split_lines, string_of, texts, views,
};

verus! {

/// The multiplexer's program.
pub const BASE_COMMAND: &'static str = "zellij";

/// The argument with which the multiplexer lists its sessions.
pub const LIST_SESSIONS: &'static str = "list-sessions";

/// What follows a server's name in the name of its session.
pub const SUFFIX: &'static str = ".mcserver";

/// What a command left behind when it ended.
#[derive(Clone, Debug, PartialEq, Eq)]
pub struct CommandOutput {
    /// Its exit code; none where a signal ended it.
    pub code: Option<i32>,
    /// What it wrote to its output stream.
    pub stdout: Vec<u8>,
    /// What it wrote to its error stream.
    pub stderr: Vec<u8>,
}

/// The name of the session of the server `server`.
pub open spec fn session_name(server: Seq<char>) -> Seq<char> {
    server + SUFFIX@
}

/// The server whose session is named `session`, where the name ends in the
/// suffix.
pub open spec fn server_name(session: Seq<char>) -> Option<Seq<char>> {
    if has_suffix(session, SUFFIX@) {
        Some(session.take(session.len() - SUFFIX@.len()))
    } else {
        None
    }
}

/// Taking the suffix from the session name of a server gives the server's
/// name back, whatever the name is.
pub proof fn lemma_session_name_round_trip(server: Seq<char>)
    ensures
        server_name(session_name(server)) == Some(server),
{
    let session = session_name(server);
    assert(session.subrange(session.len() - SUFFIX@.len(), session.len() as int) =~= SUFFIX@);
    assert(session.take(session.len() - SUFFIX@.len()) =~= server);
}

/// Names the session of a server.
pub fn get_name(server: &str) -> (name: String)
    ensures
        name@ == session_name(server@),
{
    let mut name = server.to_owned();
    name.append(SUFFIX);
    name
}

/// Names the server of a session; none where the session is not one of a
/// server.
pub fn get_server(session: &str) -> (server: Option<String>)
    ensures
        match server {
            Some(name) => server_name(session@) == Some(name@),
            None => server_name(session@) is None,
        },
{
    let chars = chars_of(session);
    let suffix = chars_of(SUFFIX);
    if ends_with(&chars, &suffix) {
        let name = slice_of(&chars, 0, chars.len() - suffix.len());
        Some(string_of(&name))
    } else {
        None
    }
}

/// The number of characters that stand before a session's name in a line
/// of the listing: the sequence that switches the colour on.
pub const NAME_START: usize = 7;

/// The number of characters between a session's name and the stamp of its
/// creation: the sequence that switches the colour off, and a space.
pub const NAME_GAP: usize = 4;

/// The line shows a session whose process has ended: its last bracket
/// holds the word `EXITED`.
pub open spec fn is_exited(line: Seq<char>) -> bool {
    match last_match(line, "("@) {
        Some(at) => occurs_in(line.skip(at), "EXITED"@),
        None => false,
    }
}

/// The session that a line of the listing names: what stands between the
/// colour sequence and the gap before the last creation stamp, or all that
/// follows the colour sequence where the line has no stamp. A line too
/// short to hold the colour sequence, or with no room for a name before
/// the stamp, names none.
pub open spec fn listed_session(line: Seq<char>) -> Option<Seq<char>> {
    if line.len() < 7 {
        None
    } else {
        match last_match(line, "[Created"@) {
            Some(at) => if at >= 11 {
                Some(line.subrange(7, at - 4))
            } else {
                None
            },
            None => Some(line.skip(7)),
        }
    }
}

/// The server that a line of the listing shows alive, if any.
pub open spec fn alive_server(line: Seq<char>) -> Option<Seq<char>> {
    if is_exited(line) {
        None
    } else {
        match listed_session(line) {
            Some(session) => server_name(session),
            None => None,
        }
    }
}

/// The servers that some of `lines` show alive, in the order of the lines.
pub open spec fn alive_among(lines: Seq<Seq<char>>) -> Seq<Seq<char>> {
    lines.filter_map(|line: Seq<char>| alive_server(line))
}

/// The servers that the listing `text` shows alive, in its order.
pub open spec fn alive_servers(text: Seq<char>) -> Seq<Seq<char>> {
    alive_among(lines(text))
}

fn line_is_exited(line: &Vec<char>) -> (exited: bool)
    ensures
        exited == is_exited(line@),
{
    let bracket = chars_of("(");
    let word = chars_of("EXITED");
    match rfind(line, &bracket) {
        Some(at) => {
            let rest = slice_of(line, at, line.len());
            assert(rest@ =~= line@.skip(at as int));
            contains(&rest, &word)
        },
        None => false,
    }
}

fn line_session(line: &Vec<char>) -> (session: Option<Vec<char>>)
    ensures
        match session {
            Some(name) => listed_session(line@) == Some(name@),
            None => listed_session(line@) is None,
        },
{
    if line.len() < NAME_START {
        return None;
    }
    let stamp = chars_of("[Created");
    match rfind(line, &stamp) {
        Some(at) => {
            if at >= NAME_START + NAME_GAP {
                Some(slice_of(line, NAME_START, at - NAME_GAP))
            } else {
                None
            }
        },
        None => {
            let name = slice_of(line, NAME_START, line.len());
            assert(name@ =~= line@.skip(7));
            Some(name)
        },
    }
}

fn line_alive_server(line: &Vec<char>) -> (server: Option<String>)
    ensures
        match server {
            Some(name) => alive_server(line@) == Some(name@),
            None => alive_server(line@) is None,
        },
{
    if line_is_exited(line) {
        return None;
    }
    match line_session(line) {
        Some(session) => {
            let suffix = chars_of(SUFFIX);
            if ends_with(&session, &suffix) {
                let name = slice_of(&session, 0, session.len() - suffix.len());
                assert(name@ =~= session@.take(session@.len() - SUFFIX@.len()));
                Some(string_of(&name))
            } else {
                None
            }
        },
        None => None,
    }
}

/// Reads the multiplexer's listing of sessions: the set of the servers
/// that it shows alive.
pub fn parse_alive_servers(text: &str) -> (alive: NameSet)
    ensures
        alive.wf(),
        alive@ == alive_servers(text@).to_set(),
{
    let chars = chars_of(text);
    let all = split_lines(&chars);
    let mut alive = NameSet::new();
    let mut i: usize = 0;
    assert(views(all@).take(0).filter_map(|line: Seq<char>| alive_server(line)) =~= Seq::<
        Seq<char>,
    >::empty());
    assert(Seq::<Seq<char>>::empty().to_set() =~= Set::<Seq<char>>::empty());
    while i < all.len()
        invariant
            i <= all.len(),
            alive.wf(),
            alive@ == alive_among(views(all@).take(i as int)).to_set(),
        decreases all.len() - i,
    {
        let ghost before = alive_among(views(all@).take(i as int));
        proof {
            views(all@).lemma_filter_map_take_succ(|line: Seq<char>| alive_server(line), i as int);
        }
        match line_alive_server(&all[i]) {
            Some(name) => {
                proof {
                    Seq::lemma_to_set_insert_commutes(before, name@);
                }
                alive.insert(name);
            },
            None => {
                assert(before + Seq::<Seq<char>>::empty() =~= before);
            },
        }
        i += 1;
    }
    assert(views(all@).take(all.len() as int) =~= views(all@));
    alive
}

/// The servers that a listing command reports alive: those of its output
/// where it exits with 0, none where it exits with the code for "no
/// sessions"; with any other end the listing has failed.
pub open spec fn alive_set(output: CommandOutput) -> Option<Set<Seq<char>>> {
    match output.code {
        Some(0) => Some(alive_servers(lossy_text(output.stdout@)).to_set()),
        Some(1) => Some(Set::empty()),
        _ => None,
    }
}

/// `error` reports the failure of the command that ended with `output`,
/// with its exit code and all of its error stream.
pub open spec fn is_failure_of(error: Error, output: CommandOutput) -> bool {
    error matches Error::CommandFailure { code, stderr } && code == output.code && (
    stderr matches Some(bytes) && bytes@ == output.stderr@)
}

/// The set of the servers whose sessions are alive, from what the
/// multiplexer's listing command left behind.
pub fn get_alive_server_sessions(output: &CommandOutput) -> (alive: Result<NameSet, Error>)
    ensures
        match alive_set(*output) {
            Some(servers) => alive matches Ok(set) && set.wf() && set@ == servers,
            None => alive matches Err(error) && is_failure_of(error, *output),
        },
{
    match output.code {
        Some(0) => {
            let text = decode_lossy(&output.stdout);
            Ok(parse_alive_servers(text.as_str()))
        },
        Some(1) => Ok(NameSet::new()),
        _ => Err(Error::CommandFailure { code: output.code, stderr: Some(output.stderr.clone()) }),
    }
}

/// The names of `servers` that are in `alive`, in their order.
pub open spec fn active_among(servers: Seq<Seq<char>>, alive: Set<Seq<char>>) -> Seq<Seq<char>> {
    servers.filter(|name: Seq<char>| alive.contains(name))
}

/// The names of `servers` that are not in `alive`, in their order.
pub open spec fn inactive_among(servers: Seq<Seq<char>>, alive: Set<Seq<char>>) -> Seq<
    Seq<char>,
> {
    servers.filter(|name: Seq<char>| !alive.contains(name))
}

/// The active and the inactive servers of a list part it: no name is in
/// both, and together they hold each name as often as the list does.
pub proof fn lemma_active_inactive_partition(servers: Seq<Seq<char>>, alive: Set<Seq<char>>)
    ensures
        forall|name: Seq<char>|
            !(active_among(servers, alive).contains(name) && inactive_among(
                servers,
                alive,
            ).contains(name)),
        active_among(servers, alive).to_multiset().add(
            inactive_among(servers, alive).to_multiset(),
        ) == servers.to_multiset(),
        active_among(servers, alive).len() + inactive_among(servers, alive).len()
            == servers.len(),
    decreases servers.len(),
{
    let is_active = |name: Seq<char>| alive.contains(name);
    let is_inactive = |name: Seq<char>| !alive.contains(name);
    let active = servers.filter(is_active);
    let inactive = servers.filter(is_inactive);
    assert forall|name: Seq<char>| !(active.contains(name) && inactive.contains(name)) by {
        if active.contains(name) && inactive.contains(name) {
            let i = choose|i: int| 0 <= i < active.len() && active[i] == name;
            servers.lemma_filter_pred(is_active, i);
            let j = choose|j: int| 0 <= j < inactive.len() && inactive[j] == name;
            servers.lemma_filter_pred(is_inactive, j);
        }
    }
    if servers.len() == 0 {
        servers.lemma_filter_len(is_active);
        servers.lemma_filter_len(is_inactive);
        assert(active.to_multiset().add(inactive.to_multiset()) =~= servers.to_multiset()) by {
            broadcast use vstd::seq_lib::group_to_multiset_ensures;
            assert(active =~= Seq::<Seq<char>>::empty());
            assert(inactive =~= Seq::<Seq<char>>::empty());
            assert(servers =~= Seq::<Seq<char>>::empty());
        }
    } else {
        let rest = servers.drop_last();
        let last = servers.last();
        lemma_active_inactive_partition(rest, alive);
        assert(rest.push(last) =~= servers);
        rest.lemma_filter_push(last, is_active);
        rest.lemma_filter_push(last, is_inactive);
        broadcast use vstd::seq_lib::group_to_multiset_ensures;
        assert(active.to_multiset().add(inactive.to_multiset()) =~= servers.to_multiset());
    }
}

/// Keeps of `servers` those that are in `alive`, or those that are not.
pub fn retain_by(servers: &mut Vec<String>, alive: &NameSet, keep_alive: bool)
    ensures
        texts(final(servers)@) == if keep_alive {
            active_among(texts(old(servers)@), alive@)
        } else {
            inactive_among(texts(old(servers)@), alive@)
        },
{
    let ghost names = texts(servers@);
    let ghost is_active = |name: Seq<char>| alive@.contains(name);
    let ghost is_inactive = |name: Seq<char>| !alive@.contains(name);
    let mut kept: Vec<String> = Vec::new();
    let mut i: usize = 0;
    proof {
        names.take(0).lemma_filter_len(is_active);
        names.take(0).lemma_filter_len(is_inactive);
        assert(texts(kept@) =~= names.take(0).filter(is_active));
        assert(texts(kept@) =~= names.take(0).filter(is_inactive));
    }
    while i < servers.len()
        invariant
            i <= servers.len(),
            names == texts(servers@),
            is_active == (|name: Seq<char>| alive@.contains(name)),
            is_inactive == (|name: Seq<char>| !alive@.contains(name)),
            texts(kept@) == if keep_alive {
                names.take(i as int).filter(is_active)
            } else {
                names.take(i as int).filter(is_inactive)
            },
        decreases servers.len() - i,
    {
        let ghost before = texts(kept@);
        proof {
            assert(names.take(i + 1) =~= names.take(i as int).push(names[i as int]));
            names.take(i as int).lemma_filter_push(names[i as int], is_active);
            names.take(i as int).lemma_filter_push(names[i as int], is_inactive);
        }
        if alive.contains(&servers[i]) == keep_alive {
            kept.push(servers[i].clone());
            assert(texts(kept@) =~= before.push(names[i as int]));
        }
        i += 1;
    }
    assert(names.take(servers.len() as int) =~= names);
    *servers = kept;
}

/// Keeps of `servers` those whose sessions the listing shows alive. Where
/// the listing has failed the list stays as it is.
pub fn retain_active(servers: &mut Vec<String>, sessions: &CommandOutput) -> (done: Result<
    (),
    Error,
>)
    ensures
        match alive_set(*sessions) {
            Some(alive) => done is Ok && texts(final(servers)@) == active_among(
                texts(old(servers)@),
                alive,
            ),
            None => (done matches Err(error) && is_failure_of(error, *sessions))
                && final(servers)@ == old(servers)@,
        },
{
    match get_alive_server_sessions(sessions) {
        Ok(alive) => {
            retain_by(servers, &alive, true);
            Ok(())
        },
        Err(error) => Err(error),
    }
}

/// What marks a server as active in a list.
pub open spec fn active_tag() -> Seq<char> {
    " (\x1b[32;1mactive\x1b[0m)"@
}

/// What tells in a list when a server was last used: its age, or the word
/// `unknown` where none is known.
pub open spec fn last_used_tag(age: Option<Seq<char>>) -> Seq<char> {
    " (Last used \x1b[35;1m"@ + (match age {
        Some(text) => text,
        None => "unknown"@,
    }) + "\x1b[0m ago)"@
}

/// The age that a record gives at the time `now`; none where there is no
/// record, where it cannot be read or is not eight bytes long, and where
/// the clock gives no time.
pub open spec fn known_age(record: LastUsedRecord, now: Option<u64>) -> Option<Seq<char>> {
    match (record, now) {
        (LastUsedRecord::Bytes(data), Some(now)) => if data@.len() == 8 {
            Some(age_text(elapsed(le_value(data@), now as nat)))
        } else {
            None
        },
        _ => None,
    }
}

/// The record of the server at position `i`; a server for which no record
/// was handed in counts as one without a record.
pub open spec fn record_at(records: Seq<LastUsedRecord>, i: int) -> LastUsedRecord {
    if 0 <= i < records.len() {
        records[i]
    } else {
        LastUsedRecord::Absent
    }
}

/// Appends to a server's name when it was last used.
pub fn push_last_used(server: &mut String, record: &LastUsedRecord, now: Option<u64>)
    ensures
        final(server)@ == old(server)@ + last_used_tag(known_age(*record, now)),
{
    let last_used = get_last_used(server.as_str(), record, now);
    server.append(" (Last used \x1b[35;1m");
    match last_used {
        Ok(Some(age)) => {
            server.append(age.as_str());
        },
        _ => {
            server.append("unknown");
        },
    }
    server.append("\x1b[0m ago)");
    assert(server@ =~= old(server)@ + last_used_tag(known_age(*record, now)));
}

/// The inactive servers of a list, each with its last-used tag; the record
/// of a server is the one at the server's position in the list.
pub open spec fn inactive_tagged(
    servers: Seq<Seq<char>>,
    alive: Set<Seq<char>>,
    records: Seq<LastUsedRecord>,
    now: Option<u64>,
) -> Seq<Seq<char>>
    decreases servers.len(),
{
    if servers.len() == 0 {
        Seq::empty()
    } else {
        let rest = inactive_tagged(servers.drop_last(), alive, records, now);
        if alive.contains(servers.last()) {
            rest
        } else {
            rest.push(
                servers.last() + last_used_tag(
                    known_age(record_at(records, servers.len() - 1), now),
                ),
            )
        }
    }
}

/// The inactive servers with their tags are the inactive servers, one for
/// one, each followed by a tag.
pub proof fn lemma_inactive_tagged_names(
    servers: Seq<Seq<char>>,
    alive: Set<Seq<char>>,
    records: Seq<LastUsedRecord>,
    now: Option<u64>,
)
    ensures
        inactive_tagged(servers, alive, records, now).len() == inactive_among(
            servers,
            alive,
        ).len(),
        forall|k: int|
            0 <= k < inactive_among(servers, alive).len() ==> inactive_among(
                servers,
                alive,
            )[k].is_prefix_of(#[trigger] inactive_tagged(servers, alive, records, now)[k]),
    decreases servers.len(),
{
    let is_inactive = |name: Seq<char>| !alive.contains(name);
    if servers.len() == 0 {
        servers.lemma_filter_len(is_inactive);
    } else {
        let rest = servers.drop_last();
        lemma_inactive_tagged_names(rest, alive, records, now);
        assert(rest.push(servers.last()) =~= servers);
        rest.lemma_filter_push(servers.last(), is_inactive);
    }
}

/// Keeps of `servers` those whose sessions the listing does not show
/// alive, and appends to each when it was last used. `records` holds the
/// last-used record of each server, at the position that the server has in
/// the list. Where the listing has failed the list stays as it is.
pub fn retain_inactive(
    servers: &mut Vec<String>,
    sessions: &CommandOutput,
    records: &Vec<LastUsedRecord>,
    now: Option<u64>,
) -> (done: Result<(), Error>)
    ensures
        match alive_set(*sessions) {
            Some(alive) => done is Ok && texts(final(servers)@) == inactive_tagged(
                texts(old(servers)@),
                alive,
                records@,
                now,
            ),
            None => (done matches Err(error) && is_failure_of(error, *sessions))
                && final(servers)@ == old(servers)@,
        },
{
    let alive = match get_alive_server_sessions(sessions) {
        Ok(alive) => alive,
        Err(error) => {
            return Err(error);
        },
    };
    let ghost names = texts(servers@);
    let absent = LastUsedRecord::Absent;
    let mut kept: Vec<String> = Vec::new();
    let mut i: usize = 0;
    assert(texts(kept@) =~= inactive_tagged(names.take(0), alive@, records@, now));
    while i < servers.len()
        invariant
            i <= servers.len(),
            names == texts(servers@),
            absent == LastUsedRecord::Absent,
            texts(kept@) == inactive_tagged(names.take(i as int), alive@, records@, now),
        decreases servers.len() - i,
    {
        let ghost before = texts(kept@);
        proof {
            assert(names.take(i + 1).drop_last() =~= names.take(i as int));
        }
        if !alive.contains(&servers[i]) {
            let mut server = servers[i].clone();
            let record = if i < records.len() {
                &records[i]
            } else {
                &absent
            };
            push_last_used(&mut server, record, now);
            kept.push(server);
            assert(texts(kept@) =~= before.push(server@));
        }
        i += 1;
    }
    assert(names.take(servers.len() as int) =~= names);
    *servers = kept;
    Ok(())
}

/// A server's name with its tag: the active tag where the server is in
/// `alive`, else the last-used tag that `record` gives.
pub open spec fn tagged(
    server: Seq<char>,
    alive: Set<Seq<char>>,
    record: LastUsedRecord,
    now: Option<u64>,
) -> Seq<char> {
    if alive.contains(server) {
        server + active_tag()
    } else {
        server + last_used_tag(known_age(record, now))
    }
}

/// The names of a list, each with its tag.
pub open spec fn tagged_all(
    servers: Seq<Seq<char>>,
    alive: Set<Seq<char>>,
    records: Seq<LastUsedRecord>,
    now: Option<u64>,
) -> Seq<Seq<char>> {
    Seq::new(servers.len(), |i: int| tagged(servers[i], alive, record_at(records, i), now))
}

/// Appends to each of `servers` that it is active, where the listing shows
/// its session alive, and else when it was last used. `records` holds the
/// last-used record of each server, at the position that the server has in
/// the list. Where the listing has failed the list stays as it is.
pub fn tag_servers(
    servers: &mut Vec<String>,
    sessions: &CommandOutput,
    records: &Vec<LastUsedRecord>,
    now: Option<u64>,
) -> (done: Result<(), Error>)
    ensures
        match alive_set(*sessions) {
            Some(alive) => done is Ok && texts(final(servers)@) == tagged_all(
                texts(old(servers)@),
                alive,
                records@,
                now,
            ),
            None => (done matches Err(error) && is_failure_of(error, *sessions))
                && final(servers)@ == old(servers)@,
        },
{
    let alive = match get_alive_server_sessions(sessions) {
        Ok(alive) => alive,
        Err(error) => {
            return Err(error);
        },
    };
    let ghost names = texts(servers@);
    let absent = LastUsedRecord::Absent;
    let mut all: Vec<String> = Vec::new();
    let mut i: usize = 0;
    while i < servers.len()
        invariant
            i <= servers.len(),
            names == texts(servers@),
            absent == LastUsedRecord::Absent,
            all.len() == i,
            forall|k: int|
                0 <= k < i ==> (#[trigger] all@[k])@ == tagged(
                    names[k],
                    alive@,
                    record_at(records@, k),
                    now,
                ),
        decreases servers.len() - i,
    {
        let mut server = servers[i].clone();
        if alive.contains(&servers[i]) {
            server.append(" (\x1b[32;1mactive\x1b[0m)");
        } else {
            let record = if i < records.len() {
                &records[i]
            } else {
                &absent
            };
            push_last_used(&mut server, record, now);
        }
        all.push(server);
        i += 1;
    }
    assert(texts(all@) =~= tagged_all(names, alive@, records@, now));
    *servers = all;
    Ok(())
}

/// The server that a line of the listing shows dead: its session is
/// listed, and its process has ended.
pub open spec fn dead_server(line: Seq<char>) -> Option<Seq<char>> {
    if is_exited(line) {
        match listed_session(line) {
            Some(session) => server_name(session),
            None => None,
        }
    } else {
        None
    }
}

/// The servers that some of `lines` show dead, in the order of the lines.
pub open spec fn dead_among(lines: Seq<Seq<char>>) -> Seq<Seq<char>> {
    lines.filter_map(|line: Seq<char>| dead_server(line))
}

/// The servers that the listing `text` shows dead, in its order.
pub open spec fn dead_servers(text: Seq<char>) -> Seq<Seq<char>> {
    dead_among(lines(text))
}

/// No line shows a server both alive and dead.
pub proof fn lemma_alive_or_dead(line: Seq<char>)
    ensures
        alive_server(line) is None || dead_server(line) is None,
{
}

/// Reads the multiplexer's listing of sessions: the set of the servers
/// that it shows dead.
pub fn parse_dead_servers(text: &str) -> (dead: NameSet)
    ensures
        dead.wf(),
        dead@ == dead_servers(text@).to_set(),
{
    let chars = chars_of(text);
    let all = split_lines(&chars);
    let mut dead = NameSet::new();
    let mut i: usize = 0;
    assert(views(all@).take(0).filter_map(|line: Seq<char>| dead_server(line)) =~= Seq::<
        Seq<char>,
    >::empty());
    assert(Seq::<Seq<char>>::empty().to_set() =~= Set::<Seq<char>>::empty());
    while i < all.len()
        invariant
            i <= all.len(),
            dead.wf(),
            dead@ == dead_among(views(all@).take(i as int)).to_set(),
        decreases all.len() - i,
    {
        let ghost before = dead_among(views(all@).take(i as int));
        proof {
            views(all@).lemma_filter_map_take_succ(|line: Seq<char>| dead_server(line), i as int);
        }
        let found = if line_is_exited(&all[i]) {
            match line_session(&all[i]) {
                Some(session) => get_server(string_of(&session).as_str()),
                None => None,
            }
        } else {
            None
        };
        match found {
            Some(name) => {
                proof {
                    Seq::lemma_to_set_insert_commutes(before, name@);
                }
                dead.insert(name);
            },
            None => {
                assert(before + Seq::<Seq<char>>::empty() =~= before);
            },
        }
        i += 1;
    }
    assert(views(all@).take(all.len() as int) =~= views(all@));
    dead
}

/// The servers that a listing command reports dead: those of its output
/// where it exits with 0, none where it exits with the code for "no
/// sessions"; with any other end the listing has failed.
pub open spec fn dead_set(output: CommandOutput) -> Option<Set<Seq<char>>> {
    match output.code {
        Some(0) => Some(dead_servers(lossy_text(output.stdout@)).to_set()),
        Some(1) => Some(Set::empty()),
        _ => None,
    }
}

/// The set of the servers whose sessions are dead, from what the
/// multiplexer's listing command left behind.
pub fn get_dead_server_sessions(output: &CommandOutput) -> (dead: Result<NameSet, Error>)
    ensures
        match dead_set(*output) {
            Some(servers) => dead matches Ok(set) && set.wf() && set@ == servers,
            None => dead matches Err(error) && is_failure_of(error, *output),
        },
{
    match output.code {
        Some(0) => {
            let text = decode_lossy(&output.stdout);
            Ok(parse_dead_servers(text.as_str()))
        },
        Some(1) => Ok(NameSet::new()),
        _ => Err(Error::CommandFailure { code: output.code, stderr: Some(output.stderr.clone()) }),
    }
}

/// Keeps of `servers` those whose sessions the listing shows dead. Where
/// the listing has failed the list stays as it is.
pub fn retain_dead(servers: &mut Vec<String>, sessions: &CommandOutput) -> (done: Result<(), Error>)
    ensures
        match dead_set(*sessions) {
            Some(dead) => done is Ok && texts(final(servers)@) == active_among(
                texts(old(servers)@),
                dead,
            ),
            None => (done matches Err(error) && is_failure_of(error, *sessions))
                && final(servers)@ == old(servers)@,
        },
{
    match get_dead_server_sessions(sessions) {
        Ok(dead) => {
            retain_by(servers, &dead, true);
            Ok(())
        },
        Err(error) => Err(error),
    }
}

/// Where the session of a server stands.
#[derive(Clone, Copy, Debug, PartialEq, Eq, Structural)]
pub enum SessionState {
    /// The multiplexer lists no session of the server: none was started,
    /// or it is gone.
    Unknown,
    /// The session is listed and its process runs.
    Running,
    /// The session is listed and its process has ended.
    Exited,
}

/// The state of a server's session, from the servers that a listing shows
/// alive and dead.
pub open spec fn state_of(server: Seq<char>, alive: Set<Seq<char>>, dead: Set<Seq<char>>) -> SessionState {
    if alive.contains(server) {
        SessionState::Running
    } else if dead.contains(server) {
        SessionState::Exited
    } else {
        SessionState::Unknown
    }
}

/// Tells where the session of `server` stands, from what the
/// multiplexer's listing command left behind.
pub fn get_state(server: &str, sessions: &CommandOutput) -> (state: Result<SessionState, Error>)
    ensures
        match (alive_set(*sessions), dead_set(*sessions)) {
            (Some(alive), Some(dead)) => state == Ok::<SessionState, Error>(
                state_of(server@, alive, dead),
            ),
            _ => state matches Err(error) && is_failure_of(error, *sessions),
        },
{
    let name = server.to_owned();
    let alive = match get_alive_server_sessions(sessions) {
        Ok(alive) => alive,
        Err(error) => {
            return Err(error);
        },
    };
    if alive.contains(&name) {
        return Ok(SessionState::Running);
    }
    match get_dead_server_sessions(sessions) {
        Ok(dead) => if dead.contains(&name) {
            Ok(SessionState::Exited)
        } else {
            Ok(SessionState::Unknown)
        },
        Err(error) => Err(error),
    }
}

} // verus!
