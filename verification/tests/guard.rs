use wayvr_dashboard::state::AppState;
use wayvr_dashboard::state::MonadoAccess;
use wayvr_dashboard::state::SteamBridge;

#[test]
fn guard_reports_unavailable_without_runtime_connection() {
    let mut state = AppState::new(Some(SteamBridge {}), false, true).unwrap();
    assert_eq!(state.get_monado(), MonadoAccess::Unavailable);
    // Absence is a stable capability flag, not a transient failure.
    assert_eq!(state.get_monado(), MonadoAccess::Unavailable);
}

#[test]
fn guard_admits_exactly_one_holder() {
    let mut state = AppState::new(Some(SteamBridge {}), true, true).unwrap();

    let lease = match state.get_monado() {
        MonadoAccess::Acquired(lease) => lease,
        other => panic!("first acquisition should grant a lease, got {:?}", other),
    };

    // While the lease is outstanding, a second acquisition must not be granted.
    assert_eq!(state.get_monado(), MonadoAccess::Busy);
    assert_eq!(state.get_monado(), MonadoAccess::Busy);

    // Once the lease is given back, acquisition succeeds again.
    state.release_monado(lease);
    match state.get_monado() {
        MonadoAccess::Acquired(_) => {}
        other => panic!("acquisition after release should grant a lease, got {:?}", other),
    }
}
