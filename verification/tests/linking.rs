use signal_core::broadcast::RecvResult;
use signal_core::signal::SignalCore;
use signal_core::state::{
    AttemptOutcome, SignalCommand, SignalEvent, SignalState, SlotOutcome,
};

fn link(device_name: &str) -> SignalCommand {
    SignalCommand::Link { device_name: device_name.to_string() }
}

#[test]
fn scenario_delivered_url_sets_linking_state() {
    let mut core = SignalCore::new();
    let (mut events, mut ticks) = core.subscribe();
    let persist = core.handle_command(
        link("phone-1"),
        SlotOutcome::Delivered { url: "sgnl://provision?x=1".to_string() },
        AttemptOutcome::Succeeded,
    );
    assert!(persist);
    // The state observers are notified and re-read the new state.
    assert_eq!(core.state_tx.drain(&mut ticks).len(), 1);
    assert_eq!(
        core.read_state(),
        SignalState::Linking { url: "sgnl://provision?x=1".to_string() }
    );
    // No cancellation event was emitted.
    assert!(core.event_tx.drain(&mut events).is_empty());
}

#[test]
fn scenario_abandoned_slot_emits_one_cancellation() {
    let mut core = SignalCore::new();
    let before = core.read_state();
    let (mut events, mut ticks) = core.subscribe();
    let persist = core.handle_command(
        link("phone-2"),
        SlotOutcome::Abandoned,
        AttemptOutcome::Failed,
    );
    assert!(!persist);
    // Exactly one cancellation event, and the state kept its prior value.
    let got = core.event_tx.drain(&mut events);
    assert_eq!(got, vec![SignalEvent::LinkingCancelled]);
    assert!(core.state_tx.drain(&mut ticks).is_empty());
    assert_eq!(core.read_state(), before);
    assert_eq!(before, SignalState::Unlinked);
}

#[test]
fn scenario_back_to_back_commands_stay_sequential() {
    let mut core = SignalCore::new();
    // First command: its attempt must be joined before the second begins.
    let device = core.begin_attempt(link("phone-1"));
    assert_eq!(device, "phone-1");
    assert_eq!(core.attempts_started, 1);
    assert_eq!(core.attempts_finished, 0);
    core.on_slot_outcome(SlotOutcome::Delivered { url: "sgnl://provision?x=1".to_string() });
    let _ = core.finish_attempt(AttemptOutcome::Succeeded);
    assert_eq!(core.attempts_finished, 1);
    // Only now can the queued second command's attempt begin.
    let device = core.begin_attempt(link("phone-2"));
    assert_eq!(device, "phone-2");
    assert_eq!(core.attempts_started, 2);
    core.on_slot_outcome(SlotOutcome::Abandoned);
    let _ = core.finish_attempt(AttemptOutcome::Failed);
    assert_eq!(core.attempts_started, 2);
    assert_eq!(core.attempts_resolved, 2);
    assert_eq!(core.attempts_finished, 2);
}

#[test]
fn scenario_two_observers_same_event_content() {
    let mut core = SignalCore::new();
    let (mut events_a, _ticks_a) = core.subscribe();
    let (mut events_b, _ticks_b) = core.subscribe();
    let _ = core.handle_command(
        link("phone-3"),
        SlotOutcome::Abandoned,
        AttemptOutcome::Failed,
    );
    let got_a = core.event_tx.drain(&mut events_a);
    let got_b = core.event_tx.drain(&mut events_b);
    assert_eq!(got_a, got_b);
    assert_eq!(got_a, vec![SignalEvent::LinkingCancelled]);
}

#[test]
fn observer_subscribing_after_the_event_misses_it() {
    let mut core = SignalCore::new();
    let _ = core.handle_command(
        link("phone-4"),
        SlotOutcome::Abandoned,
        AttemptOutcome::Failed,
    );
    let (mut events, _ticks) = core.subscribe();
    assert!(core.event_tx.drain(&mut events).is_empty());
}

#[test]
fn read_after_notification_is_fresh() {
    let mut core = SignalCore::new();
    let (_events, mut ticks) = core.subscribe();
    assert_eq!(core.state_version(), 0);
    let _ = core.handle_command(
        link("phone-5"),
        SlotOutcome::Delivered { url: "sgnl://provision?a=b".to_string() },
        AttemptOutcome::Succeeded,
    );
    // A trigger is pending; the value read after it reflects the mutation
    // that published it (or a newer one), never an older value.
    assert!(matches!(core.state_tx.recv(&mut ticks), RecvResult::Received(_)));
    assert_eq!(core.state_version(), 1);
    assert_eq!(
        core.read_state(),
        SignalState::Linking { url: "sgnl://provision?a=b".to_string() }
    );
}

#[test]
fn coalesced_notifications_still_yield_the_newest_state() {
    let mut core = SignalCore::new();
    let (_events, mut ticks) = core.subscribe();
    let _ = core.handle_command(
        link("phone-6"),
        SlotOutcome::Delivered { url: "sgnl://provision?x=2".to_string() },
        AttemptOutcome::Succeeded,
    );
    core.confirm_connected();
    // Two mutations went by; the capacity-one trigger channel coalesced
    // them, and the re-read still yields the newest state.
    let _ = core.state_tx.drain(&mut ticks);
    assert_eq!(core.read_state(), SignalState::Connected);
    assert_eq!(core.state_version(), 2);
}

#[test]
fn connected_is_an_explicit_confirmed_step() {
    let mut core = SignalCore::new();
    let (_events, mut ticks) = core.subscribe();
    let persist = core.handle_command(
        link("phone-7"),
        SlotOutcome::Delivered { url: "sgnl://provision?x=3".to_string() },
        AttemptOutcome::Succeeded,
    );
    assert!(persist);
    assert_ne!(core.read_state(), SignalState::Connected);
    assert_eq!(core.state_tx.drain(&mut ticks).len(), 1);
    core.confirm_connected();
    assert_eq!(core.read_state(), SignalState::Connected);
    // The confirmed transition published its own trigger.
    assert_eq!(core.state_tx.drain(&mut ticks).len(), 1);
}

#[test]
fn failed_attempt_leaves_state_and_loop_alive() {
    let mut core = SignalCore::new();
    let _ = core.handle_command(
        link("phone-8"),
        SlotOutcome::Delivered { url: "sgnl://provision?x=4".to_string() },
        AttemptOutcome::Failed,
    );
    // The URL had been observed before the attempt failed: the state keeps
    // it, and the core accepts the next command.
    assert_eq!(
        core.read_state(),
        SignalState::Linking { url: "sgnl://provision?x=4".to_string() }
    );
    let _ = core.handle_command(
        link("phone-9"),
        SlotOutcome::Abandoned,
        AttemptOutcome::Failed,
    );
    assert_eq!(core.attempts_finished, 2);
}

#[test]
fn one_outcome_per_attempt_across_a_run() {
    let mut core = SignalCore::new();
    let (mut events, _ticks) = core.subscribe();
    let _ = core.handle_command(
        link("a"),
        SlotOutcome::Delivered { url: "sgnl://provision?n=1".to_string() },
        AttemptOutcome::Succeeded,
    );
    let _ = core.handle_command(link("b"), SlotOutcome::Abandoned, AttemptOutcome::Failed);
    let _ = core.handle_command(link("c"), SlotOutcome::Abandoned, AttemptOutcome::Failed);
    // Three attempts resolved: one Linking transition and two cancellation
    // events, one outcome each.
    assert_eq!(core.attempts_resolved, 3);
    assert_eq!(core.state_version(), 1);
    assert_eq!(core.event_tx.drain(&mut events).len(), 2);
}

#[test]
fn poll_reports_nothing_without_a_trigger() {
    let core = SignalCore::new();
    let (_events, mut ticks) = core.subscribe();
    assert_eq!(core.poll_state(&mut ticks), None);
}

#[test]
fn poll_after_mutations_yields_the_current_state() {
    let mut core = SignalCore::new();
    let (_events, mut ticks) = core.subscribe();
    let _ = core.handle_command(
        link("phone-11"),
        SlotOutcome::Delivered { url: "sgnl://provision?x=6".to_string() },
        AttemptOutcome::Succeeded,
    );
    core.confirm_connected();
    // Both triggers answered by one poll: the snapshot is the newest state.
    assert_eq!(core.poll_state(&mut ticks), Some(SignalState::Connected));
    assert_eq!(core.poll_state(&mut ticks), None);
}

#[test]
fn read_hands_out_an_independent_copy() {
    let mut core = SignalCore::new();
    let _ = core.handle_command(
        link("phone-10"),
        SlotOutcome::Delivered { url: "sgnl://provision?x=5".to_string() },
        AttemptOutcome::Succeeded,
    );
    let snapshot = core.read_state();
    core.confirm_connected();
    // The earlier snapshot is a copy, untouched by the later mutation.
    assert_eq!(snapshot, SignalState::Linking { url: "sgnl://provision?x=5".to_string() });
    assert_eq!(core.read_state(), SignalState::Connected);
}
