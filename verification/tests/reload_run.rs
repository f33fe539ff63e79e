use filter_reload::clipboard::ClipboardCall;
use filter_reload::keys::KeyboardInput;
use filter_reload::reload::{reload, reload_with, Action, Config, Outcome, Reload};
use filter_reload::sequence::send_chat_command;

/// Runs an invocation, answering the n-th action with the n-th reply, and
/// collects the actions up to the `Return`.
fn drive(begun: (Reload, Action), replies: &[bool]) -> Vec<Action> {
    let (mut state, mut action) = begun;
    let mut actions = Vec::new();
    let mut answered = 0;
    loop {
        let ended = matches!(action, Action::Return { .. });
        actions.push(action);
        if ended {
            return actions;
        }
        let reply = replies[answered];
        answered += 1;
        let next = state.step(reply);
        state = next.0;
        action = next.1;
    }
}

fn title() -> Vec<u8> {
    let mut bytes = "Path of Exile 2".as_bytes().to_vec();
    bytes.push(0);
    bytes
}

fn command() -> Vec<u8> {
    let mut bytes = "/reloaditemfilter".as_bytes().to_vec();
    bytes.push(0);
    bytes
}

#[test]
fn default_config_names_the_fixed_target() {
    let config = Config::default();
    assert_eq!(config.target_window_title, "Path of Exile 2");
    assert_eq!(config.reload_command, "/reloaditemfilter");
    assert_eq!(config.settle_delay_ms, 100);
}

#[test]
fn reload_begins_with_the_lookup_of_the_target_window() {
    let (state, action) = reload("1.0");
    assert_eq!(action, Action::FindWindow { title: title() });
    assert_eq!(
        state,
        Reload::WindowLookup { settle_delay_ms: 100, command: "/reloaditemfilter".to_string() }
    );
}

#[test]
fn version_plays_no_part() {
    assert_eq!(reload("1.0"), reload(""));
    assert_eq!(reload("1.0"), reload("anything else"));
}

#[test]
fn missing_window_makes_the_invocation_a_no_op() {
    let actions = drive(reload("1.0"), &[false]);
    assert_eq!(
        actions,
        vec![
            Action::FindWindow { title: title() },
            Action::Return { outcome: Outcome::WindowNotFound },
        ]
    );
    assert_eq!(Outcome::WindowNotFound.response(), "");
}

#[test]
fn live_window_gets_one_write_one_focus_one_delay_and_one_batch() {
    let actions = drive(reload("1.0"), &[true; 8]);
    assert_eq!(
        actions,
        vec![
            Action::FindWindow { title: title() },
            Action::SetForeground,
            Action::Settle { millis: 100 },
            Action::Clipboard { call: ClipboardCall::Open },
            Action::Clipboard { call: ClipboardCall::Clear },
            Action::Clipboard { call: ClipboardCall::Store { format: 1, payload: command() } },
            Action::Clipboard { call: ClipboardCall::Close },
            Action::Dispatch { inputs: send_chat_command(false) },
            Action::Return { outcome: Outcome::Completed },
        ]
    );
    let batches: Vec<&Vec<KeyboardInput>> = actions
        .iter()
        .filter_map(|a| match a {
            Action::Dispatch { inputs } => Some(inputs),
            _ => None,
        })
        .collect();
    assert_eq!(batches.len(), 1);
    assert_eq!(batches[0].len(), 18);
    assert_eq!(Outcome::Completed.response(), "");
}

#[test]
fn busy_clipboard_stops_the_invocation_before_any_input() {
    let actions = drive(reload("1.0"), &[true, true, true, false]);
    assert_eq!(
        actions,
        vec![
            Action::FindWindow { title: title() },
            Action::SetForeground,
            Action::Settle { millis: 100 },
            Action::Clipboard { call: ClipboardCall::Open },
            Action::Return { outcome: Outcome::ClipboardUnavailable },
        ]
    );
    assert_eq!(Outcome::ClipboardUnavailable.response(), "");
}

#[test]
fn failed_store_releases_the_clipboard_and_sends_nothing() {
    let actions = drive(reload("1.0"), &[true, true, true, true, true, false, true]);
    assert_eq!(
        actions,
        vec![
            Action::FindWindow { title: title() },
            Action::SetForeground,
            Action::Settle { millis: 100 },
            Action::Clipboard { call: ClipboardCall::Open },
            Action::Clipboard { call: ClipboardCall::Clear },
            Action::Clipboard { call: ClipboardCall::Store { format: 1, payload: command() } },
            Action::Clipboard { call: ClipboardCall::Close },
            Action::Return { outcome: Outcome::AllocationFailed },
        ]
    );
    assert_eq!(Outcome::AllocationFailed.response(), "");
}

#[test]
fn only_three_outcomes_decide_the_course() {
    for bits in 0..256u32 {
        let replies: Vec<bool> = (0..8).map(|i| bits & (1 << i) != 0).collect();
        let actions = drive(reload("1.0"), &replies);
        let expected = if !replies[0] {
            Outcome::WindowNotFound
        } else if !replies[3] {
            Outcome::ClipboardUnavailable
        } else if !replies[5] {
            Outcome::AllocationFailed
        } else {
            Outcome::Completed
        };
        assert_eq!(actions.last(), Some(&Action::Return { outcome: expected }));
        let dispatched = actions.iter().filter(|a| matches!(a, Action::Dispatch { .. })).count();
        assert_eq!(dispatched, if expected == Outcome::Completed { 1 } else { 0 });
        let focused = actions.iter().filter(|a| **a == Action::SetForeground).count();
        assert_eq!(focused, if replies[0] { 1 } else { 0 });
    }
}

#[test]
fn configuration_overrides_title_command_and_delay() {
    let config = Config {
        target_window_title: "Notes".to_string(),
        reload_command: "/hi".to_string(),
        settle_delay_ms: 7,
    };
    let actions = drive(reload_with("2.3", config), &[true; 8]);
    assert_eq!(actions[0], Action::FindWindow { title: vec![b'N', b'o', b't', b'e', b's', 0] });
    assert_eq!(actions[2], Action::Settle { millis: 7 });
    assert_eq!(
        actions[5],
        Action::Clipboard {
            call: ClipboardCall::Store { format: 1, payload: vec![b'/', b'h', b'i', 0] }
        }
    );
    assert_eq!(actions[7], Action::Dispatch { inputs: send_chat_command(false) });
}

#[test]
fn finished_invocation_keeps_returning_its_outcome() {
    let (state, _) = reload("1.0");
    let (state, action) = state.step(false);
    assert_eq!(action, Action::Return { outcome: Outcome::WindowNotFound });
    let (state, action) = state.step(true);
    assert_eq!(action, Action::Return { outcome: Outcome::WindowNotFound });
    assert_eq!(state, Reload::Finished { outcome: Outcome::WindowNotFound });
}
