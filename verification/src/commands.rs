//! Command resolution: a request line `[action]argument` is parsed, the
//! action is looked up in the `actions` mapping and the argument in the
//! `commands` mapping, and the result is either the shell command line to run
//! or a descriptive failure response. Resolution is pure; spawning the
//! command is its caller's business, and the final response text depends only
//! on the resolution and on whether the spawn could be started.

use vstd::prelude::*;

use crate::config::{lookup_spec, Mapping};
use crate::text::{find_char, find_first, lemma_find_first_is_first, trim_leading_blanks,
    trim_start_blanks};

verus! {

/// Parsing a request: the region between the first `[` and the first `]` is
/// the action; the remainder after the bracket, less leading blanks, is the
/// argument. Both must be non-empty after trimming blanks — a bracket pair
/// holding only blanks is as malformed as an empty one.
pub open spec fn parse_spec(s: Seq<char>) -> Option<(Seq<char>, Seq<char>)> {
    match (find_first(s, '['), find_first(s, ']')) {
        (Some(i), Some(j)) => if i < j {
            let action = s.subrange(i + 1, j);
            let argument = trim_start_blanks(s.subrange(j + 1, s.len() as int));
            if trim_start_blanks(action).len() > 0 && argument.len() > 0 {
                Some((action, argument))
            } else {
                None
            }
        } else {
            None
        },
        _ => None,
    }
}

/// Response to a request that does not parse.
pub open spec fn invalid_message(request: Seq<char>) -> Seq<char> {
    "Invalid command format: '"@ + request + "'"@
}

/// Response when the action is not configured.
pub open spec fn unknown_action_message(action: Seq<char>) -> Seq<char> {
    "Action '"@ + action + "' not defined in [actions]"@
}

/// Response when the argument is not configured.
pub open spec fn unknown_argument_message(argument: Seq<char>) -> Seq<char> {
    "Command argument '"@ + argument + "' not found in [commands] configuration."@
}

/// Response when the resolved command was started.
pub open spec fn success_message(action: Seq<char>, argument: Seq<char>) -> Seq<char> {
    "Action '"@ + action + "' with argument '"@ + argument + "' executed successfully!"@
}

/// Response when the resolved command could not be started; `detail`
/// describes the spawn error.
pub open spec fn spawn_failure_message(request: Seq<char>, detail: Seq<char>) -> Seq<char> {
    "Failed to execute action '"@ + request + "': "@ + detail
}

/// The ghost image of a resolution: either the command line to run, or the
/// response that rejects the request.
pub enum Outcome {
    Run { action: Seq<char>, argument: Seq<char>, command_line: Seq<char> },
    Reject { response: Seq<char> },
}

/// What a request resolves to under the given mappings. A request runs a
/// command exactly when it parses and both lookups succeed; every other
/// request is rejected with the message naming what failed.
pub open spec fn resolution_of(
    request: Seq<char>,
    actions: Seq<(Seq<char>, Seq<char>)>,
    commands: Seq<(Seq<char>, Seq<char>)>,
) -> Outcome {
    match parse_spec(request) {
        None => Outcome::Reject { response: invalid_message(request) },
        Some((action, argument)) => match lookup_spec(actions, action) {
            None => Outcome::Reject { response: unknown_action_message(action) },
            Some(base) => match lookup_spec(commands, argument) {
                None => Outcome::Reject { response: unknown_argument_message(argument) },
                Some(expansion) => Outcome::Run {
                    action,
                    argument,
                    command_line: base + " "@ + expansion,
                },
            },
        },
    }
}

/// The response a request is answered with: a rejected request is answered
/// with its rejection, a run one with the success message, unless the spawn
/// failed with the given detail.
pub open spec fn response_of(
    request: Seq<char>,
    actions: Seq<(Seq<char>, Seq<char>)>,
    commands: Seq<(Seq<char>, Seq<char>)>,
    spawn_error: Option<Seq<char>>,
) -> Seq<char> {
    match resolution_of(request, actions, commands) {
        Outcome::Reject { response } => response,
        Outcome::Run { action, argument, .. } => match spawn_error {
            None => success_message(action, argument),
            Some(detail) => spawn_failure_message(request, detail),
        },
    }
}

/// The result of resolving one request.
pub enum Resolution {
    /// The request is well-formed and fully configured: `command_line` is
    /// what the shell shall run.
    Run { action: String, argument: String, command_line: String },
    /// The request is refused; `response` says why.
    Reject { response: String },
}

impl View for Resolution {
    type V = Outcome;

    open spec fn view(&self) -> Outcome {
        match self {
            Resolution::Run { action, argument, command_line } => Outcome::Run {
                action: action@,
                argument: argument@,
                command_line: command_line@,
            },
            Resolution::Reject { response } => Outcome::Reject { response: response@ },
        }
    }
}

/// Splits a request into its action and argument, exactly when the request is
/// well-formed: brackets in order, and neither part blank after trimming.
pub fn parse_command(command: &str) -> (r: Option<(String, String)>)
    ensures
        match r {
            Some(parts) => parse_spec(command@) == Some((parts.0@, parts.1@)),
            None => parse_spec(command@) is None,
        },
{
    if let Some(i) = find_char(command, '[') {
        if let Some(j) = find_char(command, ']') {
            if i < j {
                proof {
                    lemma_find_first_is_first(command@, '[');
                    lemma_find_first_is_first(command@, ']');
                }
                let n = command.unicode_len();
                let action = command.substring_char(i + 1, j);
                let rest = command.substring_char(j + 1, n);
                let argument = trim_leading_blanks(rest);
                let action_non_blank = !trim_leading_blanks(action).as_str().is_empty();
                if action_non_blank && !argument.as_str().is_empty() {
                    Some((action.to_owned(), argument))
                } else {
                    None
                }
            } else {
                None
            }
        } else {
            None
        }
    } else {
        None
    }
}

/// Builds the response to a request that does not parse.
pub fn invalid_response(request: &str) -> (r: String)
    ensures
        r@ == invalid_message(request@),
{
    let mut r = String::from_str("Invalid command format: '");
    r.append(request);
    r.append("'");
    r
}

/// Builds the response naming an unconfigured action.
pub fn unknown_action_response(action: &str) -> (r: String)
    ensures
        r@ == unknown_action_message(action@),
{
    let mut r = String::from_str("Action '");
    r.append(action);
    r.append("' not defined in [actions]");
    r
}

/// Builds the response naming an unconfigured argument.
pub fn unknown_argument_response(argument: &str) -> (r: String)
    ensures
        r@ == unknown_argument_message(argument@),
{
    let mut r = String::from_str("Command argument '");
    r.append(argument);
    r.append("' not found in [commands] configuration.");
    r
}

/// Builds the response to a request whose command was started.
pub fn success_response(action: &str, argument: &str) -> (r: String)
    ensures
        r@ == success_message(action@, argument@),
{
    let mut r = String::from_str("Action '");
    r.append(action);
    r.append("' with argument '");
    r.append(argument);
    r.append("' executed successfully!");
    r
}

/// Builds the response to a request whose command could not be started.
pub fn spawn_failure_response(request: &str, detail: &str) -> (r: String)
    ensures
        r@ == spawn_failure_message(request@, detail@),
{
    let mut r = String::from_str("Failed to execute action '");
    r.append(request);
    r.append("': ");
    r.append(detail);
    r
}

/// Resolves one request against the two mappings. No command is spawned
/// here: a `Run` resolution carries the command line for its caller to start.
pub fn resolve(request: &str, actions: &Mapping, commands: &Mapping) -> (r: Resolution)
    ensures
        r@ == resolution_of(request@, actions@, commands@),
{
    match parse_command(request) {
        None => Resolution::Reject { response: invalid_response(request) },
        Some(parts) => {
            let (action, argument) = parts;
            match actions.get(&action) {
                None => Resolution::Reject { response: unknown_action_response(action.as_str()) },
                Some(base) => match commands.get(&argument) {
                    None => Resolution::Reject {
                        response: unknown_argument_response(argument.as_str()),
                    },
                    Some(expansion) => {
                        let mut command_line = base;
                        command_line.append(" ");
                        command_line.append(expansion.as_str());
                        Resolution::Run { action, argument, command_line }
                    },
                },
            }
        },
    }
}

/// The response for a resolution: the rejection itself, or the outcome of the
/// spawn. `spawn_error` carries the spawn error's description, and is only
/// consulted for a `Run` resolution.
pub fn respond(request: &str, resolution: &Resolution, spawn_error: Option<&String>) -> (r: String)
    ensures
        match resolution@ {
            Outcome::Reject { response } => r@ == response,
            Outcome::Run { action, argument, .. } => match spawn_error {
                None => r@ == success_message(action, argument),
                Some(detail) => r@ == spawn_failure_message(request@, detail@),
            },
        },
{
    match resolution {
        Resolution::Reject { response } => response.clone(),
        Resolution::Run { action, argument, .. } => match spawn_error {
            None => success_response(action.as_str(), argument.as_str()),
            Some(detail) => spawn_failure_response(request, detail.as_str()),
        },
    }
}

/// A well-formed request whose action and argument are both configured
/// resolves to running the action's base command and the argument's
/// expansion, joined by one space, and a started spawn is answered with the
/// success message naming the action and the argument. Nothing is rejected on
/// this path.
pub proof fn lemma_resolve_known_request(
    request: Seq<char>,
    actions: Seq<(Seq<char>, Seq<char>)>,
    commands: Seq<(Seq<char>, Seq<char>)>,
    action: Seq<char>,
    argument: Seq<char>,
    base: Seq<char>,
    expansion: Seq<char>,
)
    requires
        parse_spec(request) == Some((action, argument)),
        lookup_spec(actions, action) == Some(base),
        lookup_spec(commands, argument) == Some(expansion),
    ensures
        resolution_of(request, actions, commands) == (Outcome::Run {
            action,
            argument,
            command_line: base + " "@ + expansion,
        }),
        response_of(request, actions, commands, None) == success_message(action, argument),
{
}

/// A request that does not parse is rejected with the malformed-request
/// message, whatever the configuration and whatever a spawn would have done:
/// no command line is produced.
pub proof fn lemma_resolve_malformed(
    request: Seq<char>,
    actions: Seq<(Seq<char>, Seq<char>)>,
    commands: Seq<(Seq<char>, Seq<char>)>,
    spawn_error: Option<Seq<char>>,
)
    requires
        parse_spec(request) is None,
    ensures
        resolution_of(request, actions, commands) == (Outcome::Reject {
            response: invalid_message(request),
        }),
        response_of(request, actions, commands, spawn_error) == invalid_message(request),
{
}

/// A parsed request whose action is not configured is rejected with the
/// message naming the action; no command line is produced.
pub proof fn lemma_resolve_unknown_action(
    request: Seq<char>,
    actions: Seq<(Seq<char>, Seq<char>)>,
    commands: Seq<(Seq<char>, Seq<char>)>,
    action: Seq<char>,
    argument: Seq<char>,
    spawn_error: Option<Seq<char>>,
)
    requires
        parse_spec(request) == Some((action, argument)),
        lookup_spec(actions, action) is None,
    ensures
        resolution_of(request, actions, commands) == (Outcome::Reject {
            response: unknown_action_message(action),
        }),
        response_of(request, actions, commands, spawn_error) == unknown_action_message(action),
{
}

/// A parsed request with a configured action but an unconfigured argument is
/// rejected with the message naming the argument; no command line is
/// produced.
pub proof fn lemma_resolve_unknown_argument(
    request: Seq<char>,
    actions: Seq<(Seq<char>, Seq<char>)>,
    commands: Seq<(Seq<char>, Seq<char>)>,
    action: Seq<char>,
    argument: Seq<char>,
    spawn_error: Option<Seq<char>>,
)
    requires
        parse_spec(request) == Some((action, argument)),
        lookup_spec(actions, action) is Some,
        lookup_spec(commands, argument) is None,
    ensures
        resolution_of(request, actions, commands) == (Outcome::Reject {
            response: unknown_argument_message(argument),
        }),
        response_of(request, actions, commands, spawn_error) == unknown_argument_message(argument),
{
}

/// Resolution is a function of the request and the configuration alone:
/// repeating an identical request against an unchanged configuration yields
/// the identical outcome, and the identical response.
pub proof fn lemma_resolution_idempotent(
    request1: Seq<char>,
    request2: Seq<char>,
    actions1: Seq<(Seq<char>, Seq<char>)>,
    actions2: Seq<(Seq<char>, Seq<char>)>,
    commands1: Seq<(Seq<char>, Seq<char>)>,
    commands2: Seq<(Seq<char>, Seq<char>)>,
    spawn_error: Option<Seq<char>>,
)
    requires
        request1 == request2,
        actions1 == actions2,
        commands1 == commands2,
    ensures
        resolution_of(request1, actions1, commands1) == resolution_of(
            request2,
            actions2,
            commands2,
        ),
        response_of(request1, actions1, commands1, spawn_error) == response_of(
            request2,
            actions2,
            commands2,
            spawn_error,
        ),
{
}

} // verus!
