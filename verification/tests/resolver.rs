//! Request resolution: well-formed, malformed, unknown-action and
//! unknown-argument requests, and the response for each spawn outcome.

use tuxtalk::commands::{
    invalid_response, parse_command, resolve, respond, spawn_failure_response, success_response,
    unknown_action_response, unknown_argument_response, Resolution,
};
use tuxtalk::config::Mapping;

fn lights_actions() -> Mapping {
    let mut actions = Mapping::new();
    assert!(actions.push("lights".to_string(), "homectl".to_string()));
    actions
}

fn lights_commands() -> Mapping {
    let mut commands = Mapping::new();
    assert!(commands.push("on".to_string(), "--state=on".to_string()));
    commands
}

#[test]
fn known_request_resolves_to_command_line() {
    let actions = lights_actions();
    let commands = lights_commands();
    match resolve("[lights] on", &actions, &commands) {
        Resolution::Run { action, argument, command_line } => {
            assert_eq!(action, "lights");
            assert_eq!(argument, "on");
            assert_eq!(command_line, "homectl --state=on");
        }
        Resolution::Reject { response } => panic!("rejected: {}", response),
    }
}

#[test]
fn known_request_success_response() {
    let actions = lights_actions();
    let commands = lights_commands();
    let resolution = resolve("[lights] on", &actions, &commands);
    let response = respond("[lights] on", &resolution, None);
    assert_eq!(response, "Action 'lights' with argument 'on' executed successfully!");
}

#[test]
fn unknown_argument_is_rejected() {
    let actions = lights_actions();
    let commands = lights_commands();
    let resolution = resolve("[lights] off", &actions, &commands);
    match &resolution {
        Resolution::Reject { response } => {
            assert_eq!(response, "Command argument 'off' not found in [commands] configuration.");
        }
        Resolution::Run { .. } => panic!("ran despite unknown argument"),
    }
    let response = respond("[lights] off", &resolution, None);
    assert_eq!(response, "Command argument 'off' not found in [commands] configuration.");
}

#[test]
fn unknown_action_is_rejected() {
    let actions = lights_actions();
    let commands = lights_commands();
    let resolution = resolve("[music] on", &actions, &commands);
    match resolution {
        Resolution::Reject { response } => {
            assert_eq!(response, "Action 'music' not defined in [actions]");
        }
        Resolution::Run { .. } => panic!("ran despite unknown action"),
    }
}

#[test]
fn malformed_request_is_rejected() {
    let actions = lights_actions();
    let commands = lights_commands();
    let resolution = resolve("turn on lights", &actions, &commands);
    match resolution {
        Resolution::Reject { response } => {
            assert_eq!(response, "Invalid command format: 'turn on lights'");
        }
        Resolution::Run { .. } => panic!("ran despite missing brackets"),
    }
}

#[test]
fn spawn_failure_is_reported() {
    let actions = lights_actions();
    let commands = lights_commands();
    let resolution = resolve("[lights] on", &actions, &commands);
    let detail = "no such shell".to_string();
    let response = respond("[lights] on", &resolution, Some(&detail));
    assert_eq!(response, "Failed to execute action '[lights] on': no such shell");
}

#[test]
fn parse_splits_action_and_argument() {
    let parsed = parse_command("[lights] on").expect("well-formed");
    assert_eq!(parsed.0, "lights");
    assert_eq!(parsed.1, "on");
}

#[test]
fn parse_trims_blanks_before_argument() {
    let parsed = parse_command("[lights] \t  volume up").expect("well-formed");
    assert_eq!(parsed.0, "lights");
    assert_eq!(parsed.1, "volume up");
}

#[test]
fn parse_rejects_missing_brackets() {
    assert!(parse_command("lights on").is_none());
    assert!(parse_command("[lights on").is_none());
    assert!(parse_command("lights] on").is_none());
}

#[test]
fn parse_rejects_empty_action_or_argument() {
    assert!(parse_command("[] on").is_none());
    assert!(parse_command("[lights]").is_none());
    assert!(parse_command("[lights]  \t ").is_none());
}

#[test]
fn parse_rejects_blank_action() {
    assert!(parse_command("[ ] on").is_none());
    assert!(parse_command("[ \t  ] on").is_none());
}

#[test]
fn blank_action_request_is_malformed() {
    let actions = lights_actions();
    let commands = lights_commands();
    let resolution = resolve("[ ] on", &actions, &commands);
    match resolution {
        Resolution::Reject { response } => {
            assert_eq!(response, "Invalid command format: '[ ] on'");
        }
        Resolution::Run { .. } => panic!("ran despite blank action"),
    }
}

#[test]
fn parse_rejects_reversed_brackets() {
    assert!(parse_command("]lights[ on").is_none());
}

#[test]
fn repeated_requests_resolve_identically() {
    let actions = lights_actions();
    let commands = lights_commands();
    let first = respond("[lights] on", &resolve("[lights] on", &actions, &commands), None);
    let second = respond("[lights] on", &resolve("[lights] on", &actions, &commands), None);
    assert_eq!(first, second);
    let third = respond("[lights] off", &resolve("[lights] off", &actions, &commands), None);
    let fourth = respond("[lights] off", &resolve("[lights] off", &actions, &commands), None);
    assert_eq!(third, fourth);
}

#[test]
fn distinct_requests_get_independent_responses() {
    let mut actions = lights_actions();
    assert!(actions.push("music".to_string(), "mpc".to_string()));
    let mut commands = lights_commands();
    assert!(commands.push("play".to_string(), "play".to_string()));

    // One order of arrival.
    let a1 = resolve("[lights] on", &actions, &commands);
    let b1 = resolve("[music] play", &actions, &commands);
    // The opposite order.
    let b2 = resolve("[music] play", &actions, &commands);
    let a2 = resolve("[lights] on", &actions, &commands);

    for a in [a1, a2] {
        match a {
            Resolution::Run { command_line, .. } => assert_eq!(command_line, "homectl --state=on"),
            Resolution::Reject { response } => panic!("rejected: {}", response),
        }
    }
    for b in [b1, b2] {
        match b {
            Resolution::Run { command_line, .. } => assert_eq!(command_line, "mpc play"),
            Resolution::Reject { response } => panic!("rejected: {}", response),
        }
    }
}

#[test]
fn rejection_response_ignores_spawn_outcome() {
    let actions = lights_actions();
    let commands = lights_commands();
    let resolution = resolve("no brackets here", &actions, &commands);
    let detail = "never spawned".to_string();
    let with_error = respond("no brackets here", &resolution, Some(&detail));
    let without = respond("no brackets here", &resolution, None);
    assert_eq!(with_error, "Invalid command format: 'no brackets here'");
    assert_eq!(with_error, without);
}

#[test]
fn response_builders_build_the_exact_messages() {
    assert_eq!(invalid_response("x"), "Invalid command format: 'x'");
    assert_eq!(unknown_action_response("tv"), "Action 'tv' not defined in [actions]");
    assert_eq!(
        unknown_argument_response("dim"),
        "Command argument 'dim' not found in [commands] configuration."
    );
    assert_eq!(
        success_response("tv", "dim"),
        "Action 'tv' with argument 'dim' executed successfully!"
    );
    assert_eq!(
        spawn_failure_response("[tv] dim", "permission denied"),
        "Failed to execute action '[tv] dim': permission denied"
    );
}
