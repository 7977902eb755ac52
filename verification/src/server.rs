//! Servers as they stand on disk: their names and their last-used records.

use vstd::prelude::*;
use vstd::string::*;
use crate::error::Error;
use crate::names::NameSet;
use crate::platforms::{platform_name, Platform};
use crate::text::{
    chars_of, decimal, find, find_char, first_index, first_match, push_decimal, slice_of,
    string_of, texts, trim_end, trimmed_end,
};

verus! {

/// The file in a server's directory that holds its last-used record.
pub const LAST_USED_FILE: &'static str = "last_used.timestamp";

/// The length of a last-used record in bytes.
pub const RECORD_LEN: usize = 8;

/// Seconds in a minute, an hour, a day, and a year of 365.2425 days.
pub const SECS_MINUTE: u64 = 60;

pub const SECS_HOUR: u64 = 3_600;

pub const SECS_DAY: u64 = 86_400;

pub const SECS_YEAR: u64 = 31_556_952;

/// What was found where a server's last-used record is kept.
#[derive(Clone, Debug, PartialEq, Eq)]
pub enum LastUsedRecord {
    /// No record: the server was never used.
    Absent,
    /// The record could not be read; holds the operating system's words.
    Unreadable(String),
    /// The record's bytes.
    Bytes(Vec<u8>),
}

/// The number that `bytes` hold, least significant byte first.
pub open spec fn le_value(bytes: Seq<u8>) -> nat
    decreases bytes.len(),
{
    if bytes.len() == 0 {
        0
    } else {
        bytes[0] as nat + 256 * le_value(bytes.skip(1))
    }
}

/// The `count` lowest bytes of `value`, least significant byte first.
pub open spec fn le_bytes(value: nat, count: nat) -> Seq<u8>
    decreases count,
{
    if count == 0 {
        Seq::empty()
    } else {
        seq![(value % 256) as u8] + le_bytes(value / 256, (count - 1) as nat)
    }
}

/// 256 to the power of `n`.
pub open spec fn pow256(n: nat) -> nat
    decreases n,
{
    if n == 0 {
        1
    } else {
        256 * pow256((n - 1) as nat)
    }
}

/// A number that fits into `count` bytes is read back from them unchanged.
pub proof fn lemma_le_round_trip(value: nat, count: nat)
    requires
        value < pow256(count),
    ensures
        le_bytes(value, count).len() == count,
        le_value(le_bytes(value, count)) == value,
    decreases count,
{
    if count > 0 {
        let rest = le_bytes(value / 256, (count - 1) as nat);
        lemma_le_round_trip(value / 256, (count - 1) as nat);
        assert(le_bytes(value, count).skip(1) =~= rest);
    }
}

/// Every `u64` fits into eight bytes.
pub proof fn lemma_u64_fits(value: u64)
    ensures
        value < pow256(8),
{
    reveal_with_fuel(pow256, 9);
}

/// Reads a timestamp from a record of eight bytes.
pub fn decode_timestamp(bytes: &Vec<u8>) -> (seconds: u64)
    requires
        bytes.len() == 8,
    ensures
        seconds == le_value(bytes@),
{
    let mut seconds: u64 = 0;
    let mut i: usize = 8;
    while i > 0
        invariant
            i <= 8,
            bytes.len() == 8,
            seconds == le_value(bytes@.skip(i as int)),
            seconds < pow256((8 - i) as nat),
        decreases i,
    {
        proof {
            reveal_with_fuel(pow256, 9);
            assert(bytes@.skip(i - 1).skip(1) =~= bytes@.skip(i as int));
        }
        i -= 1;
        seconds = seconds * 256 + bytes[i] as u64;
    }
    assert(bytes@.skip(0) =~= bytes@);
    seconds
}

/// Writes a timestamp as a record of eight bytes.
pub fn encode_timestamp(seconds: u64) -> (bytes: Vec<u8>)
    ensures
        bytes@ == le_bytes(seconds as nat, 8),
{
    let mut bytes: Vec<u8> = Vec::new();
    let mut rest: u64 = seconds;
    let mut i: usize = 0;
    while i < 8
        invariant
            i <= 8,
            bytes@ + le_bytes(rest as nat, (8 - i) as nat) == le_bytes(seconds as nat, 8),
        decreases 8 - i,
    {
        let ghost before = bytes@;
        bytes.push((rest % 256) as u8);
        proof {
            assert(before.push((rest % 256) as u8) + le_bytes((rest / 256) as nat, (7 - i) as nat)
                =~= before + le_bytes(rest as nat, (8 - i) as nat));
        }
        rest = rest / 256;
        i += 1;
    }
    assert(bytes@ + Seq::<u8>::empty() =~= bytes@);
    bytes
}

/// The seconds from `then` to `now`; none where the record lies ahead of
/// the clock.
pub open spec fn elapsed(then: nat, now: nat) -> nat {
    if now >= then {
        (now - then) as nat
    } else {
        0
    }
}

/// An age in seconds, written in years, days, hours, minutes and seconds,
/// starting at the largest unit that is not zero.
pub open spec fn age_text(age: nat) -> Seq<char> {
    let years = age / 31_556_952;
    let days = age % 31_556_952 / 86_400;
    let hours = age % 31_556_952 % 86_400 / 3_600;
    let minutes = age % 31_556_952 % 86_400 % 3_600 / 60;
    let seconds = age % 31_556_952 % 86_400 % 3_600 % 60;
    let s = decimal(seconds) + "s"@;
    let ms = decimal(minutes) + "m "@ + s;
    let hms = decimal(hours) + "h "@ + ms;
    let dhms = decimal(days) + "d "@ + hms;
    if years > 0 {
        decimal(years) + "y "@ + dhms
    } else if days > 0 {
        dhms
    } else if hours > 0 {
        hms
    } else if minutes > 0 {
        ms
    } else {
        s
    }
}

/// Writes an age in seconds as `age_text` gives it.
pub fn format_age(age: u64) -> (text: String)
    ensures
        text@ == age_text(age as nat),
{
    let years = age / SECS_YEAR;
    let years_remainder = age % SECS_YEAR;
    let days = years_remainder / SECS_DAY;
    let days_remainder = years_remainder % SECS_DAY;
    let hours = days_remainder / SECS_HOUR;
    let hours_remainder = days_remainder % SECS_HOUR;
    let minutes = hours_remainder / SECS_MINUTE;
    let seconds = hours_remainder % SECS_MINUTE;

    let mut text = String::new();
    if years > 0 {
        push_decimal(&mut text, years as u128);
        text.append("y ");
    }
    if years > 0 || days > 0 {
        push_decimal(&mut text, days as u128);
        text.append("d ");
    }
    if years > 0 || days > 0 || hours > 0 {
        push_decimal(&mut text, hours as u128);
        text.append("h ");
    }
    if years > 0 || days > 0 || hours > 0 || minutes > 0 {
        push_decimal(&mut text, minutes as u128);
        text.append("m ");
    }
    push_decimal(&mut text, seconds as u128);
    text.append("s");
    assert(text@ =~= age_text(age as nat));
    text
}

/// What a last-used record says at the time `now`: nothing where there is
/// no record, else the age of its timestamp.
pub fn get_last_used(server: &str, record: &LastUsedRecord, now: Option<u64>) -> (found: Result<
    Option<String>,
    Error,
>)
    ensures
        match *record {
            LastUsedRecord::Absent => found matches Ok(None),
            LastUsedRecord::Unreadable(why) => found matches Err(Error::Io(text)) && text@
                == why@,
            LastUsedRecord::Bytes(data) => if data@.len() != 8 {
                found matches Err(Error::InvalidTimestampFile(name)) && name@ == server@
            } else {
                match now {
                    None => found matches Err(Error::TimeWentBackwards),
                    Some(now) => found matches Ok(Some(text)) && text@ == age_text(
                        elapsed(le_value(data@), now as nat),
                    ),
                }
            },
        },
{
    match record {
        LastUsedRecord::Absent => Ok(None),
        LastUsedRecord::Unreadable(why) => Err(Error::Io(why.clone())),
        LastUsedRecord::Bytes(data) => {
            if data.len() != RECORD_LEN {
                return Err(Error::InvalidTimestampFile(server.to_owned()));
            }
            let timestamp = decode_timestamp(data);
            match now {
                None => Err(Error::TimeWentBackwards),
                Some(now) => {
                    let difference = if now >= timestamp {
                        now - timestamp
                    } else {
                        0
                    };
                    Ok(Some(format_age(difference)))
                },
            }
        },
    }
}

/// The record to write for a use at the time `now`.
pub fn save_last_used(now: Option<u64>) -> (record: Result<Vec<u8>, Error>)
    ensures
        match now {
            None => record matches Err(Error::TimeWentBackwards),
            Some(now) => record matches Ok(bytes) && bytes@ == le_bytes(now as nat, 8),
        },
{
    match now {
        None => Err(Error::TimeWentBackwards),
        Some(now) => Ok(encode_timestamp(now)),
    }
}

/// A record written at the time `then` and read at the time `now` gives the
/// age of the seconds between them, and the age "0s" where `now` is `then`
/// or lies before it.
pub proof fn lemma_saved_record_age(then: u64, now: u64)
    ensures
        le_bytes(then as nat, 8).len() == 8,
        age_text(elapsed(le_value(le_bytes(then as nat, 8)), now as nat)) == age_text(
            elapsed(then as nat, now as nat),
        ),
        now <= then ==> age_text(elapsed(le_value(le_bytes(then as nat, 8)), now as nat))
            == decimal(0) + "s"@,
{
    lemma_u64_fits(then);
    lemma_le_round_trip(then as nat, 8);
}

/// A server as it is listed: its name, and the tags that were put on it.
#[derive(Clone, Debug, PartialEq, Eq)]
pub struct ServerObject {
    pub name: String,
    pub tags: Vec<String>,
}

/// A name followed by its tags, a space before each.
pub open spec fn with_tags(name: Seq<char>, tags: Seq<Seq<char>>) -> Seq<char>
    decreases tags.len(),
{
    if tags.len() == 0 {
        name
    } else {
        with_tags(name, tags.drop_last()) + " "@ + tags.last()
    }
}

impl ServerObject {
    /// A server without tags.
    pub fn new(name: String) -> (server: ServerObject)
        ensures
            server.name == name,
            server.tags@ == Seq::<String>::empty(),
    {
        ServerObject { name, tags: Vec::new() }
    }

    /// The line that shows the server: its name, then its tags.
    pub fn to_text(&self) -> (line: String)
        ensures
            line@ == with_tags(self.name@, texts(self.tags@)),
    {
        let mut line = self.name.clone();
        let mut i: usize = 0;
        assert(texts(self.tags@).take(0) =~= Seq::<Seq<char>>::empty());
        while i < self.tags.len()
            invariant
                i <= self.tags.len(),
                line@ == with_tags(self.name@, texts(self.tags@).take(i as int)),
            decreases self.tags.len() - i,
        {
            line.append(" ");
            line.append(self.tags[i].as_str());
            proof {
                let next = texts(self.tags@).take(i + 1);
                assert(next.drop_last() =~= texts(self.tags@).take(i as int));
                assert(next.last() == self.tags@[i as int]@);
            }
            i += 1;
        }
        assert(texts(self.tags@).take(self.tags.len() as int) =~= texts(self.tags@));
        line
    }
}

/// The names of the servers, in the order in which the file system gave
/// them: the entries of the servers directory, or nothing where the
/// directory is missing or is no directory.
pub fn for_each(servers_dir: &str, entries: Option<Vec<String>>) -> (servers: Result<
    Vec<String>,
    Error,
>)
    ensures
        match entries {
            Some(names) => servers == Ok::<Vec<String>, Error>(names),
            None => servers matches Err(Error::MissingDirectory { dir }) && dir@ == servers_dir@,
        },
{
    match entries {
        Some(names) => Ok(names),
        None => Err(Error::MissingDirectory { dir: servers_dir.to_owned() }),
    }
}

/// The set of the servers, from what was found at the servers directory:
/// the names of the entries of the directory, or nothing where the
/// directory is missing or is no directory.
pub fn get_all_hashed(servers_dir: &str, entries: Option<&Vec<String>>) -> (servers: Result<
    NameSet,
    Error,
>)
    ensures
        match entries {
            Some(names) => servers matches Ok(set) && set.wf() && set@ == texts(names@).to_set()
                && set.order().to_set() == set@,
            None => servers matches Err(Error::MissingDirectory { dir }) && dir@ == servers_dir@,
        },
{
    let names = match entries {
        Some(names) => names,
        None => {
            return Err(Error::MissingDirectory { dir: servers_dir.to_owned() });
        },
    };
    let mut set = NameSet::new();
    let mut i: usize = 0;
    assert(texts(names@).take(0).to_set() =~= Set::<Seq<char>>::empty());
    assert(set.order().to_set() =~= set@);
    while i < names.len()
        invariant
            i <= names.len(),
            set.wf(),
            set@ == texts(names@).take(i as int).to_set(),
            set.order().to_set() == set@,
        decreases names.len() - i,
    {
        proof {
            assert(texts(names@).take(i + 1) =~= texts(names@).take(i as int).push(
                names@[i as int]@,
            ));
            texts(names@).take(i as int).lemma_push_to_set_commute(names@[i as int]@);
            set.order().lemma_push_to_set_commute(names@[i as int]@);
            if set@.contains(names@[i as int]@) {
                assert(set@.insert(names@[i as int]@) =~= set@);
            }
        }
        set.insert(names[i].clone());
        i += 1;
    }
    assert(texts(names@).take(names.len() as int) =~= texts(names@));
    Ok(set)
}

/// The number of times that the removal of a directory is tried.
pub const ATTEMPTS: u8 = 10;

/// What follows an attempt to remove a directory.
#[derive(Clone, Debug, PartialEq, Eq)]
pub enum Removal {
    /// Nothing: the directory is gone.
    Done,
    /// The attempt of this number.
    Retry(u8),
    /// Nothing: the last attempt has failed so.
    GiveUp(Error),
}

/// Decides what follows the attempt number `attempt`, counted from one, to
/// remove a directory: nothing where it succeeded, another attempt where
/// it failed and fewer than ten were made, and else its failure.
pub fn remove_dir_with_retries(attempt: u8, outcome: Result<(), Error>) -> (next: Removal)
    ensures
        next == match outcome {
            Ok(_) => Removal::Done,
            Err(error) => if attempt < 10 {
                Removal::Retry((attempt + 1) as u8)
            } else {
                Removal::GiveUp(error)
            },
        },
{
    match outcome {
        Ok(_) => Removal::Done,
        Err(error) => if attempt < ATTEMPTS {
            Removal::Retry(attempt + 1)
        } else {
            Removal::GiveUp(error)
        },
    }
}

/// The server that a word of the caller stands for: `.` for the server in
/// whose directory the caller stands, where that is known, and any other
/// word for itself.
pub open spec fn resolved_server(word: Seq<char>, current: Option<Seq<char>>) -> Option<Seq<char>> {
    if word == "."@ {
        current
    } else {
        Some(word)
    }
}

/// The server that `word` stands for is known and is in `all`.
pub open spec fn is_removable(word: Seq<char>, current: Option<Seq<char>>, all: Set<Seq<char>>) -> bool {
    resolved_server(word, current) matches Some(name) && all.contains(name)
}

/// What the removal of servers comes to: the servers to remove, in order,
/// and the failure in which the removal then ends, if any.
#[derive(Clone, Debug, PartialEq, Eq)]
pub struct RemovalPlan {
    pub remove: Vec<String>,
    pub failure: Option<Error>,
}

/// Plans the removal of `servers`, of which `all_servers` are known to
/// exist; `current` is the server in whose directory the caller stands, or
/// the reason why there is none. The servers are removed in order up to
/// the first that cannot be: one that is not known, which fails with
/// `ServerNotFound`, or a `.` where `current` is a failure, which fails
/// with that failure.
#[verifier::loop_isolation(false)]
pub fn remove_servers(servers: Vec<String>, all_servers: &NameSet, current: Result<String, Error>) -> (plan:
    RemovalPlan)
    ensures
        plan.remove.len() <= servers.len(),
        forall|i: int|
            0 <= i < plan.remove.len() ==> resolved_server(
                servers[i]@,
                match current {
                    Ok(name) => Some(name@),
                    Err(_) => None,
                },
            ) == Some((#[trigger] plan.remove[i])@) && all_servers@.contains(plan.remove[i]@),
        plan.failure is None <==> plan.remove.len() == servers.len(),
        plan.failure matches Some(error) ==> {
            let word = servers[plan.remove.len() as int]@;
            if word == "."@ && current is Err {
                Err::<String, Error>(error) == current
            } else {
                error matches Error::ServerNotFound(name) && resolved_server(
                    word,
                    match current {
                        Ok(name) => Some(name@),
                        Err(_) => None,
                    },
                ) == Some(name@) && !all_servers@.contains(name@)
            }
        },
{
    let ghost given = current;
    let ghost known = match given {
        Ok(name) => Some(name@),
        Err(_) => None,
    };
    let (current_name, current_error) = match current {
        Ok(name) => (Some(name), None),
        Err(error) => (None, Some(error)),
    };
    let dot = ".".to_owned();
    let mut remove: Vec<String> = Vec::new();
    let mut i: usize = 0;
    while i < servers.len()
        invariant
            i <= servers.len(),
            remove.len() == i,
            dot@ == "."@,
            known == match given {
                Ok(name) => Some(name@),
                Err(_) => None,
            },
            current_name == match given {
                Ok(name) => Some(name),
                Err(_) => None,
            },
            current_error == match given {
                Ok(_) => None,
                Err(error) => Some(error),
            },
            forall|k: int|
                0 <= k < i ==> resolved_server(servers[k]@, known) == Some((#[trigger] remove[k])@)
                    && all_servers@.contains(remove[k]@),
        decreases servers.len() - i,
    {
        let server = if servers[i] == dot {
            match &current_name {
                Some(name) => name.clone(),
                None => {
                    return RemovalPlan { remove, failure: current_error };
                },
            }
        } else {
            servers[i].clone()
        };
        if !all_servers.contains(&server) {
            return RemovalPlan { remove, failure: Some(Error::ServerNotFound(server)) };
        }
        remove.push(server);
        i += 1;
    }
    RemovalPlan { remove, failure: None }
}

/// Checks that `server` is one of `all_servers`.
pub fn check_known(server: String, all_servers: &NameSet) -> (known: Result<String, Error>)
    ensures
        known == if all_servers@.contains(server@) {
            Ok::<String, Error>(server)
        } else {
            Err(Error::ServerNotFound(server))
        },
{
    if all_servers.contains(&server) {
        Ok(server)
    } else {
        Err(Error::ServerNotFound(server))
    }
}

/// What follows an answer to the question whether a server is to be
/// removed.
#[derive(Clone, Copy, Debug, PartialEq, Eq, Structural)]
pub enum Confirmation {
    /// The server is removed.
    Confirmed,
    /// The server stays.
    Cancelled,
    /// The question is asked again.
    AskAgain,
}

/// Reads the answer to the question whether `server` is to be removed:
/// the server's name, whatever white space follows it, confirms; no answer
/// at all, not even a line end, cancels; anything else is no answer.
pub fn confirmation(server: &str, response: &str) -> (answer: Confirmation)
    ensures
        answer == if trimmed_end(response@) == server@ {
            Confirmation::Confirmed
        } else if response@.len() == 0 {
            Confirmation::Cancelled
        } else {
            Confirmation::AskAgain
        },
{
    let given = chars_of(response);
    let trimmed = string_of(&trim_end(&given));
    if trimmed == server.to_owned() {
        Confirmation::Confirmed
    } else if given.len() == 0 {
        Confirmation::Cancelled
    } else {
        Confirmation::AskAgain
    }
}

/// The name of a server that is made for a platform without a name of its
/// own: the platform's name in quotes, followed by `-server`.
pub open spec fn default_name(platform: Seq<char>) -> Seq<char> {
    "\""@ + platform + "\"-server"@
}

/// The name of a new server: the one that is given, or else the default
/// name for the platform.
pub fn init_name(platform: Platform, name: Option<String>) -> (chosen: String)
    ensures
        chosen@ == match name {
            Some(given) => given@,
            None => default_name(platform_name(platform)),
        },
{
    match name {
        Some(given) => given,
        None => {
            let mut chosen = "\"".to_owned();
            chosen.append(platform.name());
            chosen.append("\"-server");
            chosen
        },
    }
}

/// What a download names as its file: what follows the first `filename="`
/// of its disposition, up to the next `filename="`, and of that what
/// stands before its first quote.
pub open spec fn disposition_file_name(disposition: Seq<char>) -> Option<Seq<char>> {
    match first_match(disposition, "filename=\""@) {
        Some(at) => {
            let after = disposition.skip(at + "filename=\""@.len());
            let part = match first_match(after, "filename=\""@) {
                Some(next) => after.take(next),
                None => after,
            };
            Some(
                match first_index(part, '"') {
                    Some(quote) => part.take(quote),
                    None => part,
                },
            )
        },
        None => None,
    }
}

/// The name under which a downloaded jar is kept: the file name that the
/// download's disposition gives, or else the platform's name followed by
/// `.jar`.
pub fn jar_file_name(disposition: Option<&str>, platform: Platform) -> (name: String)
    ensures
        name@ == match disposition {
            Some(text) => match disposition_file_name(text@) {
                Some(file) => file,
                None => platform_name(platform) + ".jar"@,
            },
            None => platform_name(platform) + ".jar"@,
        },
{
    let key = chars_of("filename=\"");
    match disposition {
        Some(text) => {
            let chars = chars_of(text);
            match find(&chars, &key) {
                Some(at) => {
                    let after = slice_of(&chars, at + key.len(), chars.len());
                    assert(after@ =~= chars@.skip(at + key@.len()));
                    let part = match find(&after, &key) {
                        Some(next) => {
                            let part = slice_of(&after, 0, next);
                            assert(part@ =~= after@.take(next as int));
                            part
                        },
                        None => after,
                    };
                    match find_char(&part, '"') {
                        Some(quote) => {
                            let file = slice_of(&part, 0, quote);
                            assert(file@ =~= part@.take(quote as int));
                            return string_of(&file);
                        },
                        None => {
                            return string_of(&part);
                        },
                    }
                },
                None => {},
            }
        },
        None => {},
    }
    let mut name = platform.name().to_owned();
    name.append(".jar");
    name
}

} // verus!
