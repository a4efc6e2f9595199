use vstd::prelude::*;

verus! {

/// The state payload carried by a "remote state changed" notification. The
/// bridge never reads it; it is forwarded to the user interface unchanged.
#[derive(PartialEq, Eq, Debug, Clone, Copy)]
pub struct StatePayload {
    pub battery: u32,
}

/// A notification delivered by the compositor IPC client outside the normal
/// request/response cycle. A closed, tagged set: the bridge forwards
/// `StateChanged` and leaves every other variant to the client's own layers.
#[derive(PartialEq, Eq, Debug, Clone, Copy)]
pub enum Signal {
    /// The compositor's remote state changed; carries the new state.
    StateChanged(StatePayload),
    /// A connection handshake notice; not forwarded.
    Handshake,
    /// A response to a correlated request, tagged with the request's serial;
    /// consumed by the request/response layer, not by this bridge.
    Response(u64),
}

/// The dispatch callback installed on the IPC client. It remembers on whose
/// behalf it emits: the identity of the application-wide event emitter it
/// captured when it was installed.
#[derive(PartialEq, Eq, Debug, Clone, Copy)]
pub struct IpcClient {
    /// The client's single callback slot: at most one handler is installed,
    /// and installing another replaces it.
    pub on_signal: Option<SignalHandler>,
}

/// A handler occupying the IPC client's callback slot, identified by the
/// event emitter it forwards to.
#[derive(PartialEq, Eq, Debug, Clone, Copy)]
pub struct SignalHandler {
    pub emitter: u64,
}

/// One event owed to the user interface: the payload of a state change, to
/// be published by the named emitter on the channel `signal_channel` names.
#[derive(PartialEq, Eq, Debug, Clone, Copy)]
pub struct Emission {
    pub emitter: u64,
    pub payload: StatePayload,
}

/// The emission a handler owes for a signal: exactly one, carrying the
/// unchanged payload, for a state change; none for anything else.
pub open spec fn dispatch_emission(h: SignalHandler, s: Signal) -> Option<Emission> {
    match s {
        Signal::StateChanged(p) => Option::Some(Emission { emitter: h.emitter, payload: p }),
        _ => Option::None,
    }
}

/// Whether the bridge reports a signal to the IPC client as consumed. This
/// depends on the variant alone — in particular, a failure to publish the
/// emission never changes the verdict.
pub open spec fn signal_handled(s: Signal) -> bool {
    s is StateChanged
}

/// What delivering a signal to a client comes to: nothing runs while the
/// callback slot is empty, otherwise the installed handler's dispatch.
pub open spec fn delivery_spec(c: IpcClient, s: Signal) -> Delivery {
    match c.on_signal {
        Option::None => Delivery::NoHandler,
        Option::Some(h) => Delivery::Invoked {
            emission: dispatch_emission(h, s),
            handled: signal_handled(s),
        },
    }
}

/// The outcome of the IPC client's receive loop delivering one signal:
/// either no callback was installed (the signal stays unconsumed), or the
/// installed callback ran, owing `emission` to the user interface and
/// answering `handled` to the client.
#[derive(PartialEq, Eq, Debug, Clone, Copy)]
pub enum Delivery {
    NoHandler,
    Invoked { emission: Option<Emission>, handled: bool },
}

/// The dispatch callback's decision for one signal: the emission owed to the
/// user interface, if any, and whether to report the signal as consumed. The
/// caller performs the emission afterwards; since the verdict is fixed here,
/// before any emission is attempted, an emission failure cannot alter it.
pub fn handle_signal(handler: &SignalHandler, signal: Signal) -> (r: (Option<Emission>, bool))
    ensures
        r.0 == dispatch_emission(*handler, signal),
        r.1 == signal_handled(signal),
{
    match signal {
        Signal::StateChanged(payload) => (
            Some(Emission { emitter: handler.emitter, payload }),
            true,
        ),
        _ => (None, false),
    }
}

/// One step of the receive loop: deliver `signal` to whatever handler the
/// client has installed.
pub fn deliver_signal(client: &IpcClient, signal: Signal) -> (r: Delivery)
    ensures
        r == delivery_spec(*client, signal),
{
    match &client.on_signal {
        None => Delivery::NoHandler,
        Some(handler) => {
            let (emission, handled) = handle_signal(handler, signal);
            Delivery::Invoked { emission, handled }
        },
    }
}

/// The single named channel on which forwarded state changes reach the user
/// interface.
pub fn signal_channel() -> (r: &'static str)
    ensures
        r@ == "signal_state_changed"@,
{
    "signal_state_changed"
}

/// Dispatch law: a state-change signal yields exactly one emission, carrying
/// the original payload to the handler's emitter, and is reported consumed;
/// every other variant yields no emission and is reported not consumed.
pub proof fn lemma_dispatch_exact(h: SignalHandler, s: Signal)
    ensures
        s matches Signal::StateChanged(p) ==> dispatch_emission(h, s)
            == Option::Some(Emission { emitter: h.emitter, payload: p }),
        s is StateChanged <==> signal_handled(s),
        !(s is StateChanged) ==> dispatch_emission(h, s) is None,
{
}

} // verus!
