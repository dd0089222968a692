//! The dispatcher: which child processes an invocation asks for, in which
//! order, and how the run ends.
//!
//! The dispatcher runs nothing itself. It hands out one `Action` at a time;
//! the caller runs the child that a `Spawn` names, waits for it, and reports
//! the `Outcome` to get the next action.

use crate::arguments::{tool_args, tool_args_spec, update, update_spec};
use crate::config::{Config, ConfigView};
use crate::error::Error;
use crate::invocation::{Invocation, InvocationView};
use vstd::prelude::*;

verus! {

/// The build tool that every argument vector is meant for.
pub const BUILD_TOOL: &'static str = "cargo";

/// How an attempt to run a child process ended.
#[derive(Debug, Clone, Copy, PartialEq, Eq)]
pub enum Outcome {
    /// The child could not be launched.
    SpawnFailed,
    /// The child ran and ended. `code` is its exit status; a child that a
    /// signal ended has none.
    Exited { code: Option<i32> },
}

impl Outcome {
    /// A child succeeded if it ran and ended with status zero.
    pub open spec fn succeeded_spec(self) -> bool {
        self == (Outcome::Exited { code: Some(0) })
    }

    /// Whether the child ran and ended with status zero.
    #[verifier::when_used_as_spec(succeeded_spec)]
    pub fn succeeded(self) -> (b: bool)
        ensures
            b == self.succeeded_spec(),
    {
        match self {
            Outcome::Exited { code: Some(c) } => c == 0,
            _ => false,
        }
    }
}

/// What a child's end means for the run: success, or the error that ends it.
pub open spec fn judge_spec(outcome: Outcome) -> Result<(), Error> {
    match outcome {
        Outcome::SpawnFailed => Err(Error::SubprocessSpawnError),
        Outcome::Exited { code } => if code == Some(0i32) {
            Ok(())
        } else {
            Err(Error::SubprocessFailed { code })
        },
    }
}

/// What a child's end means for the run.
pub fn judge(outcome: Outcome) -> (result: Result<(), Error>)
    ensures
        result == judge_spec(outcome),
        result is Ok <==> outcome.succeeded(),
{
    match outcome {
        Outcome::SpawnFailed => Err(Error::SubprocessSpawnError),
        Outcome::Exited { code } => {
            if outcome.succeeded() {
                Ok(())
            } else {
                Err(Error::SubprocessFailed { code })
            }
        },
    }
}

/// What the caller is to do next.
#[derive(Debug, PartialEq, Eq)]
pub enum Action {
    /// Run the build tool with these arguments, with the streams of this
    /// process, wait for it, and report how it ended.
    Spawn { args: Vec<String> },
    /// The run is over: show `notices`, one per line, and end with `result`.
    Finish { notices: Vec<String>, result: Result<(), Error> },
}

/// An `Action` as plain values.
pub enum ActionView {
    Spawn { args: Seq<Seq<char>> },
    Finish { notices: Seq<Seq<char>>, result: Result<(), Error> },
}

impl View for Action {
    type V = ActionView;

    open spec fn view(&self) -> ActionView {
        match *self {
            Action::Spawn { args } => ActionView::Spawn { args: args.deep_view() },
            Action::Finish { notices, result } => ActionView::Finish {
                notices: notices.deep_view(),
                result,
            },
        }
    }
}

/// The dispatcher's state while a child runs: the argument vectors that are
/// still to be issued, in order, once that child has succeeded.
#[derive(Debug, Clone, PartialEq, Eq)]
pub struct Dispatch {
    pub queue: Vec<Vec<String>>,
}

impl View for Dispatch {
    type V = Seq<Seq<Seq<char>>>;

    open spec fn view(&self) -> Seq<Seq<Seq<char>>> {
        self.queue.deep_view()
    }
}

/// The lines that acknowledge a subcommand that does nothing yet; no lines for
/// any other subcommand.
pub open spec fn acknowledgment_spec(invocation: InvocationView) -> Seq<Seq<char>> {
    match invocation {
        InvocationView::AddPlugin { plugin } => seq![
            "Adding plugin: "@ + plugin,
            "(Not implemented yet - will install from registry)"@,
        ],
        InvocationView::RemovePlugin { plugin } => seq![
            "Removing plugin: "@ + plugin,
            "(Not implemented yet)"@,
        ],
        InvocationView::AlignVersions => seq![
            "Aligning plugin versions..."@,
            "(Not implemented yet)"@,
        ],
        InvocationView::ValidateManifest => seq![
            "Validating lunaris.toml..."@,
            "(Not implemented yet)"@,
        ],
        InvocationView::NewPlugin { plugin_type, name } => seq![
            "Creating new "@ + plugin_type + " plugin: "@ + name,
            "(Not implemented yet)"@,
        ],
        _ => Seq::empty(),
    }
}

/// The argument vectors that an invocation asks for, in the order in which
/// they are issued: a run is preceded by the Update operation, a subcommand
/// that does nothing yet asks for none, every other one for its own.
pub open spec fn plan_spec(config: ConfigView, invocation: InvocationView) -> Seq<
    Seq<Seq<char>>,
> {
    let before: Seq<Seq<Seq<char>>> = if invocation is Run {
        seq![update_spec(config)]
    } else {
        Seq::empty()
    };
    match tool_args_spec(config, invocation) {
        Some(args) => before.push(args),
        None => before,
    }
}

/// Issue the head of `queue` and keep the rest; with nothing left, finish
/// with success.
pub open spec fn advance_spec(queue: Seq<Seq<Seq<char>>>, notices: Seq<Seq<char>>) -> (
    Seq<Seq<Seq<char>>>,
    ActionView,
) {
    if queue.len() == 0 {
        (queue, ActionView::Finish { notices, result: Ok(()) })
    } else {
        (queue.drop_first(), ActionView::Spawn { args: queue[0] })
    }
}

/// The first action of an invocation, and the state for what follows it.
pub open spec fn begin_spec(config: ConfigView, invocation: InvocationView) -> (
    Seq<Seq<Seq<char>>>,
    ActionView,
) {
    advance_spec(plan_spec(config, invocation), acknowledgment_spec(invocation))
}

/// The action after a child has ended: after a success the next argument
/// vector, or the end of the run with success where none is left; after a
/// failure the end of the run with that failure, and nothing left to issue.
pub open spec fn proceed_spec(queue: Seq<Seq<Seq<char>>>, outcome: Outcome) -> (
    Seq<Seq<Seq<char>>>,
    ActionView,
) {
    match judge_spec(outcome) {
        Ok(()) => advance_spec(queue, Seq::empty()),
        Err(error) => (
            Seq::empty(),
            ActionView::Finish { notices: Seq::empty(), result: Err(error) },
        ),
    }
}

/// What a run has done so far: the argument vectors that were issued, in
/// order, and the result, once the run is over.
pub struct Trace {
    pub issued: Seq<Seq<Seq<char>>>,
    pub result: Option<Result<(), Error>>,
}

/// The trace of a run that stands at `action` with `queue` left, when the
/// children from here on end with `outcomes`, in turn. A child whose outcome
/// is not among them is still running.
pub open spec fn follow_spec(
    queue: Seq<Seq<Seq<char>>>,
    action: ActionView,
    outcomes: Seq<Outcome>,
) -> Trace
    decreases outcomes.len(),
{
    match action {
        ActionView::Finish { result, .. } => Trace { issued: Seq::empty(), result: Some(result) },
        ActionView::Spawn { args } => if outcomes.len() == 0 {
            Trace { issued: seq![args], result: None }
        } else {
            let (queue, action) = proceed_spec(queue, outcomes[0]);
            let rest = follow_spec(queue, action, outcomes.drop_first());
            Trace { issued: seq![args] + rest.issued, result: rest.result }
        },
    }
}

/// The trace of an invocation whose children end with `outcomes`, in turn.
pub open spec fn trace_spec(
    config: ConfigView,
    invocation: InvocationView,
    outcomes: Seq<Outcome>,
) -> Trace {
    let (queue, action) = begin_spec(config, invocation);
    follow_spec(queue, action, outcomes)
}

/// A run issues the Update operation first, and its own argument vector only
/// after the Update operation has succeeded: where that fails, nothing more
/// is issued and the run ends with the failure.
pub proof fn law_update_precedes_run(
    config: ConfigView,
    invocation: InvocationView,
    outcomes: Seq<Outcome>,
)
    requires
        invocation is Run,
    ensures
        ({
            let trace = trace_spec(config, invocation, outcomes);
            let update = update_spec(config);
            let run = tool_args_spec(config, invocation)->0;
            &&& trace.issued.len() >= 1
            &&& trace.issued[0] == update
            &&& outcomes.len() == 0 ==> trace.issued == seq![update] && trace.result is None
            &&& outcomes.len() >= 1 && !outcomes[0].succeeded() ==> {
                &&& trace.issued == seq![update]
                &&& trace.result == Some(judge_spec(outcomes[0]))
                &&& trace.result->0 is Err
            }
            &&& outcomes.len() >= 1 && outcomes[0].succeeded() ==> {
                &&& trace.issued == seq![update, run]
                &&& outcomes.len() >= 2 ==> trace.result == Some(judge_spec(outcomes[1]))
            }
        }),
{
    reveal_with_fuel(follow_spec, 4);
    let trace = trace_spec(config, invocation, outcomes);
    let update = update_spec(config);
    let run = tool_args_spec(config, invocation)->0;
    let plan = plan_spec(config, invocation);
    assert(plan =~= seq![update, run]);
    assert(plan.drop_first() =~= seq![run]);
    assert(seq![run].drop_first() =~= Seq::<Seq<Seq<char>>>::empty());
    if outcomes.len() >= 1 {
        if outcomes[0].succeeded() {
            assert(trace.issued =~= seq![update, run]);
        } else {
            assert(trace.issued =~= seq![update]);
        }
    }
}

/// A subcommand that does nothing yet ends at once with success, whatever its
/// arguments are, and issues nothing.
pub proof fn law_stubs_succeed_without_spawning(
    config: ConfigView,
    invocation: InvocationView,
    outcomes: Seq<Outcome>,
)
    requires
        invocation.is_stub(),
    ensures
        begin_spec(config, invocation).1 == (ActionView::Finish {
            notices: acknowledgment_spec(invocation),
            result: Ok(()),
        }),
        trace_spec(config, invocation, outcomes).issued == Seq::<Seq<Seq<char>>>::empty(),
        trace_spec(config, invocation, outcomes).result == Some(Ok::<(), Error>(())),
{
}

/// Whatever is left to issue, a failed child ends the run: nothing is issued
/// after it, in this step or in any later one.
pub proof fn law_failure_is_final(queue: Seq<Seq<Seq<char>>>, outcomes: Seq<Outcome>)
    requires
        outcomes.len() >= 1,
        !outcomes[0].succeeded(),
    ensures
        ({
            let (left, action) = proceed_spec(queue, outcomes[0]);
            let trace = follow_spec(left, action, outcomes.drop_first());
            &&& left.len() == 0
            &&& action is Finish
            &&& trace.issued.len() == 0
            &&& trace.result == Some(judge_spec(outcomes[0]))
        }),
{
}

fn acknowledgment(invocation: &Invocation) -> (notices: Vec<String>)
    ensures
        notices.deep_view() == acknowledgment_spec(invocation@),
{
    let mut notices: Vec<String> = Vec::new();
    assert(notices.deep_view() =~= Seq::<Seq<char>>::empty());
    match invocation {
        Invocation::AddPlugin { plugin } => {
            let mut line = "Adding plugin: ".to_string();
            line.append(plugin.as_str());
            notices.push(line);
            notices.push("(Not implemented yet - will install from registry)".to_string());
        },
        Invocation::RemovePlugin { plugin } => {
            let mut line = "Removing plugin: ".to_string();
            line.append(plugin.as_str());
            notices.push(line);
            notices.push("(Not implemented yet)".to_string());
        },
        Invocation::AlignVersions => {
            notices.push("Aligning plugin versions...".to_string());
            notices.push("(Not implemented yet)".to_string());
        },
        Invocation::ValidateManifest => {
            notices.push("Validating lunaris.toml...".to_string());
            notices.push("(Not implemented yet)".to_string());
        },
        Invocation::NewPlugin { plugin_type, name } => {
            let mut line = "Creating new ".to_string();
            line.append(plugin_type.as_str());
            line.append(" plugin: ");
            line.append(name.as_str());
            notices.push(line);
            notices.push("(Not implemented yet)".to_string());
        },
        _ => {},
    }
    assert(notices.deep_view() =~= acknowledgment_spec(invocation@));
    notices
}

/// The argument vectors that an invocation asks for, in the order in which
/// they are issued.
pub fn plan(config: &Config, invocation: &Invocation) -> (queue: Vec<Vec<String>>)
    ensures
        queue.deep_view() == plan_spec(config@, invocation@),
{
    let mut queue: Vec<Vec<String>> = Vec::new();
    if let Invocation::Run { .. } = invocation {
        queue.push(update(config));
    }
    if let Some(args) = tool_args(config, invocation) {
        queue.push(args);
    }
    assert(queue.deep_view() =~= plan_spec(config@, invocation@));
    queue
}

fn advance(queue: Vec<Vec<String>>, notices: Vec<String>) -> (next: (Dispatch, Action))
    ensures
        (next.0@, next.1@) == advance_spec(queue.deep_view(), notices.deep_view()),
{
    let mut queue = queue;
    if queue.len() == 0 {
        (Dispatch { queue }, Action::Finish { notices, result: Ok(()) })
    } else {
        let ghost before = queue.deep_view();
        let args = queue.remove(0);
        assert(queue.deep_view() =~= before.drop_first());
        (Dispatch { queue }, Action::Spawn { args })
    }
}

/// Starts the run of `invocation`: the first action, and the state to hand
/// back with the outcome of the child that it asks for.
pub fn begin(config: &Config, invocation: &Invocation) -> (next: (Dispatch, Action))
    ensures
        (next.0@, next.1@) == begin_spec(config@, invocation@),
{
    advance(plan(config, invocation), acknowledgment(invocation))
}

/// Goes on after the child of the last `Spawn` has ended with `outcome`.
pub fn proceed(state: Dispatch, outcome: Outcome) -> (next: (Dispatch, Action))
    ensures
        (next.0@, next.1@) == proceed_spec(state@, outcome),
{
    let notices: Vec<String> = Vec::new();
    assert(notices.deep_view() =~= Seq::<Seq<char>>::empty());
    match judge(outcome) {
        Ok(()) => advance(state.queue, notices),
        Err(error) => {
            let left = Dispatch { queue: Vec::new() };
            assert(left@ =~= Seq::<Seq<Seq<char>>>::empty());
            (left, Action::Finish { notices, result: Err(error) })
        },
    }
}

} // verus!
