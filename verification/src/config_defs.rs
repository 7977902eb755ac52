//! The shapes of the configuration: what is fixed when the program is built,
//! and what the user may change.

use vstd::prelude::*;
use vstd::string::*;

verus! {

/// The types that a value of the static configuration may have.
pub trait AllowedConfigValue {

}

impl AllowedConfigValue for String {

}

impl AllowedConfigValue for &'static str {

}

/// The configuration that is fixed when the program is built.
#[derive(Debug)]
pub struct StaticConfig<T: AllowedConfigValue = &'static str> {
    /// How to reach whoever runs the program; sent along with downloads.
    pub contact: T,
    /// The directory of the dynamic configuration; may begin with `~`.
    pub dynamic_config_path: T,
}

/// A password. What is shown of it in place of its text is `HIDDEN`.
#[derive(Clone, PartialEq, Eq)]
pub struct Password(pub String);

impl Password {
    /// What stands for a password wherever a configuration is shown.
    pub const HIDDEN: &'static str = "(hidden)";
}

/// How to reach the remote console of a server.
#[derive(Clone, PartialEq, Eq)]
pub struct RconConfig {
    pub server_address: Option<String>,
    pub port: Option<u16>,
    pub password: Option<Password>,
}

/// A remote-console entry, with texts in place of strings.
pub struct RconConfigView {
    pub server_address: Option<Seq<char>>,
    pub port: Option<u16>,
    pub password: Option<Seq<char>>,
}

impl View for RconConfig {
    type V = RconConfigView;

    open spec fn view(&self) -> RconConfigView {
        RconConfigView {
            server_address: match self.server_address {
                Some(address) => Some(address@),
                None => None,
            },
            port: self.port,
            password: match self.password {
                Some(password) => Some(password.0@),
                None => None,
            },
        }
    }
}

fn same_text(a: &Option<String>, b: &Option<String>) -> (same: bool)
    ensures
        same == match (*a, *b) {
            (Some(x), Some(y)) => x@ == y@,
            (None, None) => true,
            _ => false,
        },
{
    match (a, b) {
        (Some(x), Some(y)) => *x == *y,
        (None, None) => true,
        _ => false,
    }
}

impl RconConfig {
    /// Tells whether two entries hold the same.
    pub fn same_as(&self, other: &RconConfig) -> (same: bool)
        ensures
            same == (self@ == other@),
    {
        let ports = match (self.port, other.port) {
            (Some(x), Some(y)) => x == y,
            (None, None) => true,
            _ => false,
        };
        let passwords = match (&self.password, &other.password) {
            (Some(x), Some(y)) => x.0 == y.0,
            (None, None) => true,
            _ => false,
        };
        same_text(&self.server_address, &other.server_address) && ports && passwords
    }

    /// A copy of the entry.
    pub fn duplicate(&self) -> (copy: RconConfig)
        ensures
            copy@ == self@,
    {
        RconConfig {
            server_address: match &self.server_address {
                Some(address) => Some(address.clone()),
                None => None,
            },
            port: self.port,
            password: match &self.password {
                Some(password) => Some(Password(password.0.clone())),
                None => None,
            },
        }
    }
}

/// The map that a list of entries stands for: each name with its entry, a
/// later entry of a name before an earlier one.
pub open spec fn entries_map(entries: Seq<(String, RconConfig)>) -> Map<Seq<char>, RconConfigView>
    decreases entries.len(),
{
    if entries.len() == 0 {
        Map::empty()
    } else {
        entries_map(entries.drop_last()).insert(entries.last().0@, entries.last().1@)
    }
}

/// No name has two entries.
pub open spec fn distinct_names(entries: Seq<(String, RconConfig)>) -> bool {
    forall|i: int, j: int|
        0 <= i < j < entries.len() ==> (#[trigger] entries[i]).0@ != (#[trigger] entries[j]).0@
}

/// The names of a list of entries, in its order.
pub open spec fn entry_names(entries: Seq<(String, RconConfig)>) -> Seq<Seq<char>> {
    entries.map_values(|entry: (String, RconConfig)| entry.0@)
}

/// The map of a list holds the names of its entries and no others, and
/// where no name has two entries it gives each name its entry.
pub proof fn lemma_entries_map(entries: Seq<(String, RconConfig)>)
    ensures
        forall|name: Seq<char>| #[trigger]
            entries_map(entries).dom().contains(name) <==> entry_names(entries).contains(name),
        distinct_names(entries) ==> forall|i: int|
            0 <= i < entries.len() ==> entries_map(entries)[(#[trigger] entries[i]).0@]
                == entries[i].1@,
    decreases entries.len(),
{
    if entries.len() > 0 {
        let rest = entries.drop_last();
        let last = entries.last();
        lemma_entries_map(rest);
        assert(entry_names(entries) =~= entry_names(rest).push(last.0@));
        assert forall|name: Seq<char>| #[trigger]
            entries_map(entries).dom().contains(name) <==> entry_names(entries).contains(
                name,
            ) by {
            if entries_map(entries).dom().contains(name) {
                if name == last.0@ {
                    assert(entry_names(entries)[entries.len() - 1] == name);
                } else {
                    assert(entries_map(rest).dom().contains(name));
                    let i = entry_names(rest).index_of(name);
                    assert(entry_names(entries)[i] == name);
                }
            }
            if entry_names(entries).contains(name) {
                let i = entry_names(entries).index_of(name);
                if i < rest.len() {
                    assert(entry_names(rest)[i] == name);
                }
            }
        }
        if distinct_names(entries) {
            assert(distinct_names(rest)) by {
                assert forall|i: int, j: int| 0 <= i < j < rest.len() implies (#[trigger] rest[i]).0@
                    != (#[trigger] rest[j]).0@ by {
                    assert(entries[i].0@ != entries[j].0@);
                }
            }
            assert forall|i: int| 0 <= i < entries.len() implies entries_map(
                entries,
            )[(#[trigger] entries[i]).0@] == entries[i].1@ by {
                if i < rest.len() {
                    assert(rest[i].0@ == entries[i].0@);
                    assert(entries[i].0@ != entries[entries.len() - 1].0@);
                }
            }
        }
    }
}

/// The remote-console entries of the servers, by server name.
#[derive(Clone)]
pub struct RconTable {
    entries: Vec<(String, RconConfig)>,
}

impl View for RconTable {
    type V = Map<Seq<char>, RconConfigView>;

    closed spec fn view(&self) -> Map<Seq<char>, RconConfigView> {
        entries_map(self.entries@)
    }
}

impl RconTable {
    /// No server has two entries.
    pub closed spec fn wf(&self) -> bool {
        distinct_names(self.entries@)
    }

    /// The table without entries.
    pub fn new() -> (table: RconTable)
        ensures
            table.wf(),
            table@ == Map::<Seq<char>, RconConfigView>::empty(),
    {
        RconTable { entries: Vec::new() }
    }

    fn position(&self, server: &str) -> (at: Option<usize>)
        ensures
            match at {
                Some(i) => i < self.entries.len() && self.entries[i as int].0@ == server@,
                        None => !entry_names(self.entries@).contains(server@),
            },
    {
        let name = server.to_owned();
        let mut i: usize = 0;
        while i < self.entries.len()
            invariant
                i <= self.entries.len(),
                name@ == server@,
                forall|j: int| 0 <= j < i ==> entry_names(self.entries@)[j] != server@,
            decreases self.entries.len() - i,
        {
            if self.entries[i].0 == name {
                return Some(i);
            }
            assert(entry_names(self.entries@)[i as int] != server@);
            i += 1;
        }
        None
    }

    /// The entry of `server`, if it has one.
    pub fn get(&self, server: &str) -> (found: Option<&RconConfig>)
        requires
            self.wf(),
        ensures
            match found {
                Some(entry) => self@.dom().contains(server@) && self@[server@] == entry@,
                None => !self@.dom().contains(server@),
            },
    {
        proof {
            lemma_entries_map(self.entries@);
        }
        match self.position(server) {
            Some(i) => {
                assert(entry_names(self.entries@)[i as int] == server@);
                assert(self@[self.entries[i as int].0@] == self.entries[i as int].1@);
                Some(&self.entries[i].1)
            },
            None => None,
        }
    }

    /// Gives `server` the entry `config`, in place of the one it had.
    pub fn insert(&mut self, server: String, config: RconConfig)
        requires
            old(self).wf(),
        ensures
            final(self).wf(),
            final(self)@ == old(self)@.insert(server@, config@),
    {
        let ghost before = self.entries@;
        proof {
            lemma_entries_map(before);
        }
        match self.position(server.as_str()) {
            Some(i) => {
                self.entries.set(i, (server, config));
                proof {
                    let after = self.entries@;
                    assert(distinct_names(after)) by {
                        assert forall|a: int, b: int| 0 <= a < b < after.len() implies
                            (#[trigger] after[a]).0@ != (#[trigger] after[b]).0@ by {
                            assert(before[a].0@ != before[b].0@);
                        }
                    }
                    lemma_entries_map(after);
                    assert(entry_names(after) =~= entry_names(before));
                    assert(entry_names(before)[i as int] == server@);
                    assert forall|name: Seq<char>| #[trigger]
                        entries_map(after).dom().contains(name) == entries_map(before).insert(
                            server@,
                            config@,
                        ).dom().contains(name) by {
                    }
                    assert forall|name: Seq<char>|
                        entries_map(after).dom().contains(name) implies #[trigger] entries_map(
                        after,
                    )[name] == entries_map(before).insert(server@, config@)[name] by {
                        let k = entry_names(after).index_of(name);
                        assert(after[k].0@ == name);
                        assert(entries_map(after)[after[k].0@] == after[k].1@);
                        if k != i {
                            assert(before[k] == after[k]);
                            assert(entries_map(before)[before[k].0@] == before[k].1@);
                            assert(before[k].0@ != before[i as int].0@);
                        }
                    }
                    assert(entries_map(after) =~= entries_map(before).insert(server@, config@));
                }
            },
            None => {
                self.entries.push((server, config));
                proof {
                    let after = self.entries@;
                    assert(after.drop_last() =~= before);
                    assert(distinct_names(after)) by {
                        assert forall|a: int, b: int| 0 <= a < b < after.len() implies
                            (#[trigger] after[a]).0@ != (#[trigger] after[b]).0@ by {
                            if b < before.len() {
                                assert(before[a].0@ != before[b].0@);
                            } else {
                                assert(entry_names(before)[a] == before[a].0@);
                            }
                        }
                    }
                }
            },
        }
    }

    /// The number of entries.
    pub fn len(&self) -> (n: usize)
        ensures
            n == self.names().len(),
    {
        self.entries.len()
    }

    /// The names of the servers that have an entry, in the order in which
    /// they came in.
    pub closed spec fn names(&self) -> Seq<Seq<char>> {
        entry_names(self.entries@)
    }

    /// The name of the server at position `at`, and its entry.
    pub fn entry(&self, at: usize) -> (found: (&String, &RconConfig))
        requires
            self.wf(),
            at < self.names().len(),
        ensures
            found.0@ == self.names()[at as int],
            self@.dom().contains(found.0@),
            self@[found.0@] == found.1@,
    {
        proof {
            lemma_entries_map(self.entries@);
            assert(entry_names(self.entries@)[at as int] == self.entries[at as int].0@);
        }
        (&self.entries[at].0, &self.entries[at].1)
    }

    fn within(&self, other: &RconTable) -> (within: bool)
        requires
            self.wf(),
            other.wf(),
        ensures
            within == forall|name: Seq<char>| #[trigger]
                self@.dom().contains(name) ==> other@.dom().contains(name) && self@[name]
                    == other@[name],
    {
        proof {
            lemma_entries_map(self.entries@);
        }
        let mut i: usize = 0;
        while i < self.entries.len()
            invariant
                i <= self.entries.len(),
                self.wf(),
                other.wf(),
                forall|j: int|
                    0 <= j < i ==> other@.dom().contains((#[trigger] self.entries[j]).0@)
                        && other@[self.entries[j].0@] == self.entries[j].1@,
            decreases self.entries.len() - i,
        {
            proof {
                lemma_entries_map(self.entries@);
            }
            let same = match other.get(self.entries[i].0.as_str()) {
                Some(entry) => entry.same_as(&self.entries[i].1),
                None => false,
            };
            if !same {
                assert(entry_names(self.entries@)[i as int] == self.entries[i as int].0@);
                assert(self@.dom().contains(self.entries[i as int].0@));
                assert(self@[self.entries[i as int].0@] == self.entries[i as int].1@);
                return false;
            }
            i += 1;
        }
        proof {
            lemma_entries_map(self.entries@);
        }
        assert forall|name: Seq<char>| #[trigger] self@.dom().contains(name) implies
            other@.dom().contains(name) && self@[name] == other@[name] by {
            let k = entry_names(self.entries@).index_of(name);
            assert(self.entries[k].0@ == name);
            assert(self@[self.entries[k].0@] == self.entries[k].1@);
        }
        true
    }

    /// Tells whether two tables give the same servers the same entries.
    pub fn same_as(&self, other: &RconTable) -> (same: bool)
        requires
            self.wf(),
            other.wf(),
        ensures
            same == (self@ == other@),
    {
        let same = self.within(other) && other.within(self);
        proof {
            if same {
                assert(self@ =~= other@);
            }
        }
        same
    }

    /// A copy of the table.
    pub fn duplicate(&self) -> (copy: RconTable)
        requires
            self.wf(),
        ensures
            copy.wf(),
            copy@ == self@,
            copy.names() == self.names(),
    {
        let mut entries: Vec<(String, RconConfig)> = Vec::new();
        let mut i: usize = 0;
        while i < self.entries.len()
            invariant
                i <= self.entries.len(),
                entries.len() == i,
                forall|j: int|
                    0 <= j < i ==> (#[trigger] entries[j]).0@ == self.entries[j].0@ && entries[j].1@
                        == self.entries[j].1@,
            decreases self.entries.len() - i,
        {
            entries.push((self.entries[i].0.clone(), self.entries[i].1.duplicate()));
            i += 1;
        }
        let copy = RconTable { entries };
        proof {
            lemma_same_entries(copy.entries@, self.entries@);
            assert(copy.names() =~= self.names());
        }
        copy
    }
}

/// Two lists with the same names and entries, place by place, stand for
/// the same map.
pub proof fn lemma_same_entries(a: Seq<(String, RconConfig)>, b: Seq<(String, RconConfig)>)
    requires
        a.len() == b.len(),
        forall|j: int|
            0 <= j < a.len() ==> (#[trigger] a[j]).0@ == b[j].0@ && a[j].1@ == b[j].1@,
    ensures
        entries_map(a) == entries_map(b),
        distinct_names(b) ==> distinct_names(a),
    decreases a.len(),
{
    if a.len() > 0 {
        lemma_same_entries(a.drop_last(), b.drop_last());
    }
    if distinct_names(b) {
        assert forall|i: int, j: int| 0 <= i < j < a.len() implies
            (#[trigger] a[i]).0@ != (#[trigger] a[j]).0@ by {
            assert(b[i].0@ != b[j].0@);
        }
    }
}

/// The configuration that the user may change.
#[derive(Clone)]
pub struct DynamicConfig {
    /// The arguments that every server's Java is started with.
    pub default_java_args: String,
    /// Whether servers are started without their window.
    pub nogui: bool,
    /// The directory that holds the servers; may begin with `~` and name
    /// variables of the environment.
    pub servers_directory: String,
    /// The server that a command is about when it names none.
    pub default_server: String,
    /// The remote consoles of the servers.
    pub rcon: RconTable,
}

/// A dynamic configuration, with texts in place of strings.
pub struct DynamicConfigView {
    pub default_java_args: Seq<char>,
    pub nogui: bool,
    pub servers_directory: Seq<char>,
    pub default_server: Seq<char>,
    pub rcon: Map<Seq<char>, RconConfigView>,
}

impl View for DynamicConfig {
    type V = DynamicConfigView;

    open spec fn view(&self) -> DynamicConfigView {
        DynamicConfigView {
            default_java_args: self.default_java_args@,
            nogui: self.nogui,
            servers_directory: self.servers_directory@,
            default_server: self.default_server@,
            rcon: self.rcon@,
        }
    }
}

impl DynamicConfig {
    /// No server has two remote-console entries.
    pub open spec fn wf(&self) -> bool {
        self.rcon.wf()
    }

    /// Tells whether two configurations hold the same.
    pub fn same_as(&self, other: &DynamicConfig) -> (same: bool)
        requires
            self.wf(),
            other.wf(),
        ensures
            same == (self@ == other@),
    {
        self.default_java_args == other.default_java_args && self.nogui == other.nogui
            && self.servers_directory == other.servers_directory && self.default_server
            == other.default_server && self.rcon.same_as(&other.rcon)
    }

    /// A copy of the configuration.
    pub fn duplicate(&self) -> (copy: DynamicConfig)
        requires
            self.wf(),
        ensures
            copy.wf(),
            copy@ == self@,
    {
        DynamicConfig {
            default_java_args: self.default_java_args.clone(),
            nogui: self.nogui,
            servers_directory: self.servers_directory.clone(),
            default_server: self.default_server.clone(),
            rcon: self.rcon.duplicate(),
        }
    }
}

/// The dynamic configuration of a user who has set nothing: no arguments,
/// servers with their window, the servers under `~/Servers`, no default
/// server and no remote console.
pub open spec fn default_dynamic_config() -> DynamicConfigView {
    DynamicConfigView {
        default_java_args: ""@,
        nogui: false,
        servers_directory: "~/Servers"@,
        default_server: ""@,
        rcon: Map::empty(),
    }
}

/// The dynamic configuration of a user who has set nothing.
pub fn get_default_dynamic_config() -> (config: DynamicConfig)
    ensures
        config.wf(),
        config@ == default_dynamic_config(),
{
    DynamicConfig {
        default_java_args: "".to_owned(),
        nogui: false,
        servers_directory: "~/Servers".to_owned(),
        default_server: "".to_owned(),
        rcon: RconTable::new(),
    }
}

} // verus!
