//! The remote console: the arguments with which its client is run.

use vstd::prelude::*;
use vstd::string::*;
use crate::config_defs::{DynamicConfig, RconConfigView};
use crate::error::Error;
use crate::text::{decimal, push_decimal, texts};

verus! {

/// The client of the remote console.
pub const BASE_COMMAND: &'static str = "mcrcon";

/// The arguments that tell the client how to reach a console: the address
/// after `-H`, the port after `-P` and the password after `-p`, each only
/// where it is set.
pub open spec fn connection_args(entry: RconConfigView) -> Seq<Seq<char>> {
    (match entry.server_address {
        Some(address) => seq!["-H"@, address],
        None => Seq::empty(),
    }) + (match entry.port {
        Some(port) => seq!["-P"@, decimal(port as nat)],
        None => Seq::empty(),
    }) + (match entry.password {
        Some(password) => seq!["-p"@, password],
        None => Seq::empty(),
    })
}

/// The arguments with which the client sends `commands` to the console of
/// `server`. A server without a remote-console entry has none.
pub fn run(server: &str, config: &DynamicConfig, commands: &Vec<String>) -> (args: Result<
    Vec<String>,
    Error,
>)
    requires
        config.wf(),
    ensures
        match args {
            Ok(words) => config@.rcon.dom().contains(server@) && texts(words@) == connection_args(
                config@.rcon[server@],
            ) + texts(commands@),
            Err(Error::MissingRconConfig(name)) => name@ == server@
                && !config@.rcon.dom().contains(server@),
            Err(_) => false,
        },
{
    let entry = match config.rcon.get(server) {
        Some(entry) => entry,
        None => {
            return Err(Error::MissingRconConfig(server.to_owned()));
        },
    };
    let mut words: Vec<String> = Vec::new();
    assert(texts(words@) =~= Seq::<Seq<char>>::empty());
    match &entry.server_address {
        Some(address) => {
            words.push("-H".to_owned());
            words.push(address.clone());
        },
        None => {},
    }
    let ghost first = texts(words@);
    assert(first =~= match entry@.server_address {
        Some(address) => seq!["-H"@, address],
        None => Seq::empty(),
    });
    match entry.port {
        Some(port) => {
            let mut number = String::new();
            push_decimal(&mut number, port as u128);
            assert(number@ =~= decimal(port as nat));
            words.push("-P".to_owned());
            words.push(number);
        },
        None => {},
    }
    let ghost second = texts(words@);
    assert(second =~= first + match entry@.port {
        Some(port) => seq!["-P"@, decimal(port as nat)],
        None => Seq::empty(),
    });
    match &entry.password {
        Some(password) => {
            words.push("-p".to_owned());
            words.push(password.0.clone());
        },
        None => {},
    }
    let ghost third = texts(words@);
    assert(third =~= connection_args(entry@));
    let mut i: usize = 0;
    while i < commands.len()
        invariant
            i <= commands.len(),
            texts(words@) == third + texts(commands@).take(i as int),
        decreases commands.len() - i,
    {
        let ghost before = texts(words@);
        words.push(commands[i].clone());
        assert(texts(words@) =~= before.push(commands@[i as int]@));
        assert(texts(commands@).take(i + 1) =~= texts(commands@).take(i as int).push(
            commands@[i as int]@,
        ));
        i += 1;
    }
    assert(texts(commands@).take(commands.len() as int) =~= texts(commands@));
    Ok(words)
}

} // verus!
