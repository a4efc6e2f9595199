use wayvr_dashboard::signal::Delivery;
use wayvr_dashboard::signal::Emission;
use wayvr_dashboard::signal::IpcClient;
use wayvr_dashboard::signal::Signal;
use wayvr_dashboard::signal::SignalHandler;
use wayvr_dashboard::signal::StatePayload;
use wayvr_dashboard::signal::deliver_signal;
use wayvr_dashboard::signal::handle_signal;
use wayvr_dashboard::signal::signal_channel;
use wayvr_dashboard::state::AppState;
use wayvr_dashboard::state::ConfigureOutcome;
use wayvr_dashboard::state::SteamBridge;

#[test]
fn channel_name_is_fixed() {
    assert_eq!(signal_channel(), "signal_state_changed");
}

#[test]
fn state_change_yields_one_emission_and_is_handled() {
    let handler = SignalHandler { emitter: 3 };
    let payload = StatePayload { battery: 50 };
    let (emission, handled) = handle_signal(&handler, Signal::StateChanged(payload));
    assert_eq!(emission, Some(Emission { emitter: 3, payload }));
    assert!(handled);
}

#[test]
fn other_variants_yield_no_emission_and_are_not_handled() {
    let handler = SignalHandler { emitter: 3 };

    let (emission, handled) = handle_signal(&handler, Signal::Handshake);
    assert_eq!(emission, None);
    assert!(!handled);

    let (emission, handled) = handle_signal(&handler, Signal::Response(9));
    assert_eq!(emission, None);
    assert!(!handled);
}

#[test]
fn delivery_without_installed_handler_runs_nothing() {
    let client = IpcClient { on_signal: None };
    let outcome = deliver_signal(&client, Signal::StateChanged(StatePayload { battery: 12 }));
    assert_eq!(outcome, Delivery::NoHandler);
}

#[test]
fn configure_without_client_skips_and_changes_nothing() {
    let mut state = AppState::new(Some(SteamBridge {}), true, false).unwrap();
    let before = state;
    assert_eq!(state.configure_signal_handler(7), ConfigureOutcome::Skipped);
    assert_eq!(state, before);
}

#[test]
fn configure_installs_the_handler() {
    let mut state = AppState::new(Some(SteamBridge {}), false, true).unwrap();
    assert_eq!(state.configure_signal_handler(7), ConfigureOutcome::Installed);
    assert_eq!(
        state.wayvr_client,
        Some(IpcClient { on_signal: Some(SignalHandler { emitter: 7 }) })
    );
}

#[test]
fn configure_twice_replaces_the_handler() {
    let mut twice = AppState::new(Some(SteamBridge {}), false, true).unwrap();
    twice.configure_signal_handler(1);
    twice.configure_signal_handler(2);
    assert_eq!(
        twice.wayvr_client,
        Some(IpcClient { on_signal: Some(SignalHandler { emitter: 2 }) })
    );

    // The state after two installations is the state after the second alone.
    let mut once = AppState::new(Some(SteamBridge {}), false, true).unwrap();
    once.configure_signal_handler(2);
    assert_eq!(twice, once);
}

#[test]
fn delivered_state_change_reaches_the_emitter_with_its_payload() {
    let mut state = AppState::new(Some(SteamBridge {}), false, true).unwrap();
    assert_eq!(state.configure_signal_handler(5), ConfigureOutcome::Installed);
    let client = state.wayvr_client.unwrap();

    let outcome = deliver_signal(&client, Signal::StateChanged(StatePayload { battery: 87 }));
    assert_eq!(
        outcome,
        Delivery::Invoked {
            emission: Some(Emission { emitter: 5, payload: StatePayload { battery: 87 } }),
            handled: true,
        }
    );
}

#[test]
fn delivered_other_signal_is_left_to_the_client() {
    let mut state = AppState::new(Some(SteamBridge {}), false, true).unwrap();
    state.configure_signal_handler(5);
    let client = state.wayvr_client.unwrap();

    let outcome = deliver_signal(&client, Signal::Handshake);
    assert_eq!(outcome, Delivery::Invoked { emission: None, handled: false });
}
