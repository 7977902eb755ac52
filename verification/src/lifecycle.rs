//! The life of a session, as scripts: each operation is a list of steps for
//! the caller to perform in order, and `advance` decides after each step
//! whether the operation goes on, has failed, or is done.

use vstd::prelude::*;
use vstd::string::*;
use crate::error::Error;
use crate::session::{get_name, session_name};
use crate::text::texts;

verus! {

/// The time, in milliseconds, that a new session is given to settle before
/// anything is typed into it.
pub const SETTLE_MILLIS: u64 = 300;

/// The key code of the carriage return.
pub const RETURN_KEY: &'static str = "13";

/// Where the streams of a command go.
#[derive(Clone, Copy, Debug, PartialEq, Eq, Structural)]
pub enum Streams {
    /// To the caller's terminal.
    Inherit,
    /// Nowhere: output and errors are dropped.
    Discard,
    /// The error stream is kept and handed back with the exit code.
    CaptureErrors,
}

/// How the end of a step is judged.
#[derive(Clone, Copy, Debug, PartialEq, Eq, Structural)]
pub enum Judge {
    /// The step counts as done however the command exits.
    Ignore,
    /// The command has to exit with 0.
    Success,
    /// The command has to exit with 0; its error stream goes into the
    /// failure.
    SuccessOrErrors,
}

/// One thing for the caller to do.
#[derive(Clone, Debug, PartialEq, Eq)]
pub enum Action {
    /// Run the multiplexer with these arguments and wait for its end.
    Run { args: Vec<String>, streams: Streams },
    /// Start the multiplexer with these arguments and go on while it runs.
    Spawn { args: Vec<String> },
    /// Wait for this many milliseconds.
    Sleep { millis: u64 },
    /// Wait for the end of the process that `Spawn` started.
    Wait,
    /// Write the last-used record of this server.
    SaveLastUsed { server: String },
}

/// An action, with texts in place of strings.
pub enum ActionView {
    Run { args: Seq<Seq<char>>, streams: Streams },
    Spawn { args: Seq<Seq<char>> },
    Sleep { millis: u64 },
    Wait,
    SaveLastUsed { server: Seq<char> },
}

impl View for Action {
    type V = ActionView;

    open spec fn view(&self) -> ActionView {
        match *self {
            Action::Run { args, streams } => ActionView::Run {
                args: texts(args@),
                streams,
            },
            Action::Spawn { args } => ActionView::Spawn { args: texts(args@) },
            Action::Sleep { millis } => ActionView::Sleep { millis },
            Action::Wait => ActionView::Wait,
            Action::SaveLastUsed { server } => ActionView::SaveLastUsed { server: server@ },
        }
    }
}

/// A step of a script: what to do, and how its end is judged.
#[derive(Clone, Debug, PartialEq, Eq)]
pub struct Step {
    pub action: Action,
    pub judge: Judge,
}

/// A step, with texts in place of strings.
pub struct StepView {
    pub action: ActionView,
    pub judge: Judge,
}

impl View for Step {
    type V = StepView;

    open spec fn view(&self) -> StepView {
        StepView { action: self.action@, judge: self.judge }
    }
}

/// The steps of a script, with texts in place of strings.
pub open spec fn steps(script: Seq<Step>) -> Seq<StepView> {
    script.map_values(|step: Step| step@)
}

/// What became of a step.
#[derive(Clone, Debug, PartialEq, Eq)]
pub enum Outcome {
    /// It could not be done, for this reason.
    Failed(Error),
    /// The command ran and ended with this exit code; `stderr` holds its
    /// error stream where that was captured.
    Ended { code: Option<i32>, stderr: Vec<u8> },
    /// It was done, and is no command that ran to its end.
    Performed,
}

/// What follows a step.
#[derive(Debug, PartialEq, Eq)]
pub enum Next {
    /// The step at this position of the script.
    Step(usize),
    /// Nothing: the operation has ended so.
    Finished(Result<(), Error>),
}

/// The judge is content with the outcome.
pub open spec fn accepts(judge: Judge, outcome: Outcome) -> bool {
    match outcome {
        Outcome::Failed(_) => false,
        Outcome::Ended { code, .. } => judge == Judge::Ignore || code == Some(0i32),
        Outcome::Performed => true,
    }
}

/// `error` is the failure that the judge makes of an outcome that it does
/// not accept: the step's own failure, or that of the command, which holds
/// the error stream only for the judge that asks for it.
pub open spec fn is_rejection(error: Error, judge: Judge, outcome: Outcome) -> bool {
    match outcome {
        Outcome::Failed(why) => error == why,
        Outcome::Ended { code, stderr } => error matches Error::CommandFailure {
            code: failed,
            stderr: kept,
        } && failed == code && (if judge == Judge::SuccessOrErrors {
            kept matches Some(bytes) && bytes@ == stderr@
        } else {
            kept is None
        }),
        Outcome::Performed => false,
    }
}

/// Judges the outcome of a step.
pub fn verdict(judge: Judge, outcome: Outcome) -> (done: Result<(), Error>)
    ensures
        accepts(judge, outcome) ==> done is Ok,
        !accepts(judge, outcome) ==> (done matches Err(error) && is_rejection(
            error,
            judge,
            outcome,
        )),
{
    match outcome {
        Outcome::Failed(why) => Err(why),
        Outcome::Ended { code, stderr } => {
            let success = match code {
                Some(0) => true,
                _ => false,
            };
            match judge {
                Judge::Ignore => Ok(()),
                Judge::Success => if success {
                    Ok(())
                } else {
                    Err(Error::CommandFailure { code, stderr: None })
                },
                Judge::SuccessOrErrors => if success {
                    Ok(())
                } else {
                    Err(Error::CommandFailure { code, stderr: Some(stderr) })
                },
            }
        },
        Outcome::Performed => Ok(()),
    }
}

/// Decides what follows the step at position `at` of `script`, which ended
/// with `outcome`: the next step where the judge accepts the outcome and a
/// step is left, the end with success where none is left, and the end with
/// the failure where the judge does not accept it. A position past the end
/// of the script is the end with success.
pub fn advance(script: &Vec<Step>, at: usize, outcome: Outcome) -> (next: Next)
    ensures
        at >= script.len() ==> next == Next::Finished(Ok(())),
        at < script.len() && accepts(script[at as int].judge, outcome) ==> next == (if at + 1
            < script.len() {
            Next::Step((at + 1) as usize)
        } else {
            Next::Finished(Ok(()))
        }),
        at < script.len() && !accepts(script[at as int].judge, outcome) ==> (next matches Next::Finished(
            Err(error),
        ) && is_rejection(error, script[at as int].judge, outcome)),
{
    if at >= script.len() {
        return Next::Finished(Ok(()));
    }
    match verdict(script[at].judge, outcome) {
        Ok(()) => if at + 1 < script.len() {
            Next::Step(at + 1)
        } else {
            Next::Finished(Ok(()))
        },
        Err(error) => Next::Finished(Err(error)),
    }
}

/// The step that runs the multiplexer with `args`.
pub open spec fn run_step(args: Seq<Seq<char>>, streams: Streams, judge: Judge) -> StepView {
    StepView { action: ActionView::Run { args, streams }, judge }
}

/// The step that writes a server's last-used record; it has to succeed.
pub open spec fn save_step(server: Seq<char>) -> StepView {
    StepView { action: ActionView::SaveLastUsed { server }, judge: Judge::Success }
}

/// The step that sends `chars` into a session by the multiplexer's action
/// `mode`; the command has to succeed.
pub open spec fn write_step(session: Seq<char>, mode: Seq<char>, chars: Seq<char>) -> StepView {
    run_step(
        seq!["--session"@, session, "action"@, mode, chars],
        Streams::Inherit,
        Judge::Success,
    )
}

/// Typing `chars` into a session.
pub open spec fn write_chars_script(session: Seq<char>, chars: Seq<char>) -> Seq<StepView> {
    seq![write_step(session, "write-chars"@, chars)]
}

/// Typing `chars` into a session and then, with a command of its own, the
/// carriage return.
pub open spec fn write_line_script(session: Seq<char>, chars: Seq<char>) -> Seq<StepView> {
    seq![write_step(session, "write-chars"@, chars), write_step(session, "write"@, "13"@)]
}

/// Ending a session.
pub open spec fn kill_session_script(session: Seq<char>) -> Seq<StepView> {
    seq![run_step(seq!["kill-session"@, session], Streams::Inherit, Judge::Success)]
}

/// Attaching to the session of a server: the attach command, whose errors
/// are kept, and after its success the last-used record.
pub open spec fn attach_script(server: Seq<char>) -> Seq<StepView> {
    seq![
        run_step(
            seq!["attach"@, session_name(server)],
            Streams::CaptureErrors,
            Judge::SuccessOrErrors,
        ),
        save_step(server),
    ]
}

/// Starting a session: a session of the same name that is left over is
/// deleted, however that ends; the new one is started and given time to
/// settle; the initial command, where there is one, is typed as a line;
/// then the session is waited for.
pub open spec fn new_session_script(session: Seq<char>, command: Option<Seq<char>>) -> Seq<
    StepView,
> {
    seq![
        run_step(seq!["delete-session"@, session], Streams::Discard, Judge::Ignore),
        StepView {
            action: ActionView::Spawn { args: seq!["--session"@, session] },
            judge: Judge::Success,
        },
        StepView { action: ActionView::Sleep { millis: 300 }, judge: Judge::Ignore },
    ] + (match command {
        Some(chars) => write_line_script(session, chars),
        None => Seq::empty(),
    }) + seq![StepView { action: ActionView::Wait, judge: Judge::Ignore }]
}

/// Starting the session of a server: the last-used record is written
/// before the session starts and again when it has ended.
pub open spec fn new_server_script(server: Seq<char>, command: Option<Seq<char>>) -> Seq<
    StepView,
> {
    seq![save_step(server)] + new_session_script(session_name(server), command) + seq![
        save_step(server),
    ]
}

/// The step that sends `chars` into `session` by the action `mode`.
pub fn session_write(session: &str, mode: &str, chars: &str) -> (step: Step)
    ensures
        step@ == write_step(session@, mode@, chars@),
{
    let mut args: Vec<String> = Vec::new();
    args.push("--session".to_owned());
    args.push(session.to_owned());
    args.push("action".to_owned());
    args.push(mode.to_owned());
    args.push(chars.to_owned());
    assert(texts(args@) =~= seq!["--session"@, session@, "action"@, mode@, chars@]);
    Step { action: Action::Run { args, streams: Streams::Inherit }, judge: Judge::Success }
}

/// The script that types `chars` into `session`.
pub fn write_chars(session: &str, chars: &str) -> (script: Vec<Step>)
    ensures
        steps(script@) == write_chars_script(session@, chars@),
{
    let mut script: Vec<Step> = Vec::new();
    script.push(session_write(session, "write-chars", chars));
    assert(steps(script@) =~= write_chars_script(session@, chars@));
    script
}

/// The script that types `chars` into `session`, and then the carriage
/// return.
pub fn write_line(session: &str, chars: &str) -> (script: Vec<Step>)
    ensures
        steps(script@) == write_line_script(session@, chars@),
{
    let mut script: Vec<Step> = Vec::new();
    script.push(session_write(session, "write-chars", chars));
    script.push(session_write(session, "write", RETURN_KEY));
    assert(steps(script@) =~= write_line_script(session@, chars@));
    script
}

/// The script that ends `session`.
pub fn kill_session(session: &str) -> (script: Vec<Step>)
    ensures
        steps(script@) == kill_session_script(session@),
{
    let mut args: Vec<String> = Vec::new();
    args.push("kill-session".to_owned());
    args.push(session.to_owned());
    assert(texts(args@) =~= seq!["kill-session"@, session@]);
    let mut script: Vec<Step> = Vec::new();
    script.push(
        Step { action: Action::Run { args, streams: Streams::Inherit }, judge: Judge::Success },
    );
    assert(steps(script@) =~= kill_session_script(session@));
    script
}

/// The script that attaches the caller's terminal to the session of
/// `server`.
pub fn attach(server: &str) -> (script: Vec<Step>)
    ensures
        steps(script@) == attach_script(server@),
{
    let mut args: Vec<String> = Vec::new();
    args.push("attach".to_owned());
    args.push(get_name(server));
    assert(texts(args@) =~= seq!["attach"@, session_name(server@)]);
    let mut script: Vec<Step> = Vec::new();
    script.push(
        Step {
            action: Action::Run { args, streams: Streams::CaptureErrors },
            judge: Judge::SuccessOrErrors,
        },
    );
    script.push(
        Step { action: Action::SaveLastUsed { server: server.to_owned() }, judge: Judge::Success },
    );
    assert(steps(script@) =~= attach_script(server@));
    script
}

fn push_new_session(script: &mut Vec<Step>, session: &str, initial_command: Option<&str>)
    ensures
        steps(final(script)@) == steps(old(script)@) + new_session_script(
            session@,
            match initial_command {
                Some(chars) => Some(chars@),
                None => None,
            },
        ),
{
    let ghost before = steps(script@);
    let mut delete: Vec<String> = Vec::new();
    delete.push("delete-session".to_owned());
    delete.push(session.to_owned());
    assert(texts(delete@) =~= seq!["delete-session"@, session@]);
    script.push(
        Step {
            action: Action::Run { args: delete, streams: Streams::Discard },
            judge: Judge::Ignore,
        },
    );
    let mut start: Vec<String> = Vec::new();
    start.push("--session".to_owned());
    start.push(session.to_owned());
    assert(texts(start@) =~= seq!["--session"@, session@]);
    script.push(Step { action: Action::Spawn { args: start }, judge: Judge::Success });
    script.push(Step { action: Action::Sleep { millis: SETTLE_MILLIS }, judge: Judge::Ignore });
    match initial_command {
        Some(chars) => {
            script.push(session_write(session, "write-chars", chars));
            script.push(session_write(session, "write", RETURN_KEY));
        },
        None => {},
    }
    script.push(Step { action: Action::Wait, judge: Judge::Ignore });
    assert(steps(script@) =~= before + new_session_script(
        session@,
        match initial_command {
            Some(chars) => Some(chars@),
            None => None,
        },
    ));
}

/// The script that starts `session` and types the initial command into it.
pub fn new_session(session: &str, initial_command: Option<&str>) -> (script: Vec<Step>)
    ensures
        steps(script@) == new_session_script(
            session@,
            match initial_command {
                Some(chars) => Some(chars@),
                None => None,
            },
        ),
{
    let mut script: Vec<Step> = Vec::new();
    push_new_session(&mut script, session, initial_command);
    assert(steps(Seq::<Step>::empty()) =~= Seq::<StepView>::empty());
    assert(Seq::<StepView>::empty() + steps(script@) =~= steps(script@));
    script
}

/// The script that starts the session of `server` and types the initial
/// command into it.
pub fn new_server(server: &str, initial_command: Option<&str>) -> (script: Vec<Step>)
    ensures
        steps(script@) == new_server_script(
            server@,
            match initial_command {
                Some(chars) => Some(chars@),
                None => None,
            },
        ),
{
    let mut script: Vec<Step> = Vec::new();
    script.push(
        Step { action: Action::SaveLastUsed { server: server.to_owned() }, judge: Judge::Success },
    );
    assert(steps(script@) =~= seq![save_step(server@)]);
    let session = get_name(server);
    push_new_session(&mut script, session.as_str(), initial_command);
    let ghost middle = steps(script@);
    script.push(
        Step { action: Action::SaveLastUsed { server: server.to_owned() }, judge: Judge::Success },
    );
    assert(steps(script@) =~= middle + seq![save_step(server@)]);
    script
}

/// The order of a creation with an initial command: the stale session is
/// deleted before the new one is started, nothing is typed before the new
/// session was given its time to settle, the return key follows the
/// characters, and the last-used record is written first and last.
pub proof fn lemma_new_server_order(server: Seq<char>, chars: Seq<char>)
    ensures
        ({
            let script = new_server_script(server, Some(chars));
            let session = session_name(server);
            &&& script.len() == 8
            &&& script[0] == save_step(server)
            &&& script[1] == run_step(
                seq!["delete-session"@, session],
                Streams::Discard,
                Judge::Ignore,
            )
            &&& script[2].action == (ActionView::Spawn { args: seq!["--session"@, session] })
            &&& script[3].action == (ActionView::Sleep { millis: 300 })
            &&& script[4] == write_step(session, "write-chars"@, chars)
            &&& script[5] == write_step(session, "write"@, "13"@)
            &&& script[6].action == ActionView::Wait
            &&& script[7] == save_step(server)
        }),
{
}

/// The number of live sessions named `name` after a step, where there were
/// `before`. This is the multiplexer as its commands are documented:
/// `delete-session` and `kill-session` leave no session of the name that
/// they are given, and a start with `--session` adds one of that name.
pub open spec fn sessions_after_step(action: ActionView, name: Seq<char>, before: nat) -> nat {
    match action {
        ActionView::Run { args, .. } => if args.len() == 2 && (args[0] == "delete-session"@
            || args[0] == "kill-session"@) && args[1] == name {
            0
        } else {
            before
        },
        ActionView::Spawn { args } => if args.len() == 2 && args[0] == "--session"@ && args[1]
            == name {
            before + 1
        } else {
            before
        },
        _ => before,
    }
}

/// The number of live sessions named `name` after all steps of a script,
/// where there were `before`.
pub open spec fn sessions_after(script: Seq<StepView>, name: Seq<char>, before: nat) -> nat
    decreases script.len(),
{
    if script.len() == 0 {
        before
    } else {
        sessions_after_step(
            script.last().action,
            name,
            sessions_after(script.drop_last(), name, before),
        )
    }
}

proof fn lemma_one_session_from_start(
    server: Seq<char>,
    command: Option<Seq<char>>,
    before: nat,
    k: nat,
)
    requires
        3 <= k <= new_server_script(server, command).len(),
    ensures
        sessions_after(new_server_script(server, command).take(k as int), session_name(server), before)
            == 1,
    decreases k,
{
    let script = new_server_script(server, command);
    let name = session_name(server);
    if k == 3 {
        assert(script.take(3).drop_last() =~= script.take(2));
        assert(script.take(2).drop_last() =~= script.take(1));
        assert(script.take(1).drop_last() =~= script.take(0));
        assert(script.take(3).last() == script[2]);
        assert(script.take(2).last() == script[1]);
        assert(script.take(1).last() == script[0]);
        assert(sessions_after(script.take(0), name, before) == before);
        assert(sessions_after(script.take(1), name, before) == before);
        assert(sessions_after(script.take(2), name, before) == 0);
    } else {
        lemma_one_session_from_start(server, command, before, (k - 1) as nat);
        assert(script.take(k as int).drop_last() =~= script.take(k - 1));
        assert(script.take(k as int).last() == script[k - 1]);
    }
}

/// Starting the session of a server leaves exactly one live session of its
/// name, however many there were: none is left once the stale session is
/// deleted, one from the start of the new session on, at whatever later
/// step the script ends. So two runs in succession leave one as well.
pub proof fn lemma_new_server_leaves_one_session(
    server: Seq<char>,
    command: Option<Seq<char>>,
    before: nat,
)
    ensures
        sessions_after(new_server_script(server, command).take(2), session_name(server), before)
            == 0,
        forall|k: int|
            3 <= k <= new_server_script(server, command).len() ==> #[trigger] sessions_after(
                new_server_script(server, command).take(k),
                session_name(server),
                before,
            ) == 1,
        sessions_after(new_server_script(server, command), session_name(server), before) == 1,
        sessions_after(
            new_server_script(server, command),
            session_name(server),
            sessions_after(new_server_script(server, command), session_name(server), before),
        ) == 1,
{
    let script = new_server_script(server, command);
    let name = session_name(server);
    assert(script.take(2).drop_last() =~= script.take(1));
    assert(script.take(1).drop_last() =~= script.take(0));
    assert(script.take(2).last() == script[1]);
    assert(script.take(1).last() == script[0]);
    assert(sessions_after(script.take(0), name, before) == before);
    assert(sessions_after(script.take(1), name, before) == before);
    assert forall|k: int| 3 <= k <= script.len() implies #[trigger] sessions_after(
        script.take(k),
        name,
        before,
    ) == 1 by {
        lemma_one_session_from_start(server, command, before, k as nat);
    }
    assert(script.take(script.len() as int) =~= script);
    lemma_one_session_from_start(server, command, 1, script.len());
}

} // verus!
