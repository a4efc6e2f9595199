use vstd::prelude::*;

use crate::serial::SerialGenerator;
use crate::signal::IpcClient;
use crate::signal::SignalHandler;

verus! {

/// The locally owned Steam integration subsystem. It is the one part of the
/// aggregate whose construction is required to succeed; its internal
/// operations are outside this core.
#[derive(PartialEq, Eq, Debug, Clone, Copy)]
pub struct SteamBridge {}

/// The shared connection to the XR runtime's control interface, wrapped for
/// exclusive access. `held` records whether a lease on it is outstanding.
#[derive(PartialEq, Eq, Debug, Clone, Copy)]
pub struct MonadoHandle {
    pub held: bool,
}

/// A lease on the runtime-control handle. Holding a value of this type is
/// holding the exclusive right of access; giving it back to `release_monado`
/// ends the lease.
#[derive(PartialEq, Eq, Debug)]
pub struct MonadoLease {}

/// The outcome of asking for the runtime-control handle. `Unavailable` means
/// the feature is absent (no connection was made at startup) and is not an
/// error; `Busy` means another holder has the lease and the caller would have
/// to wait for it; `Acquired` carries the lease.
#[derive(PartialEq, Eq, Debug)]
pub enum MonadoAccess {
    Unavailable,
    Busy,
    Acquired(MonadoLease),
}

/// The one failure that aborts startup: the Steam bridge could not be
/// constructed. Failed connections to the optional peers never surface here.
#[derive(PartialEq, Eq, Debug, Clone, Copy)]
pub enum StartupError {
    SteamBridgeFailed,
}

/// The outcome of `configure_signal_handler`: skipped because no IPC client
/// is present (a graceful no-op, not an error), or installed.
#[derive(PartialEq, Eq, Debug, Clone, Copy)]
pub enum ConfigureOutcome {
    Skipped,
    Installed,
}

/// The aggregate application state, constructed once per process: the Steam
/// bridge (always present), the optional compositor IPC client, the optional
/// runtime-control handle, and the request-correlation identifier generator.
/// Absence of an optional peer is a capability flag, never an error.
#[derive(PartialEq, Eq, Debug, Clone, Copy)]
pub struct AppState {
    pub steam_bridge: SteamBridge,
    pub wayvr_client: Option<IpcClient>,
    pub serial_generator: SerialGenerator,
    pub monado: Option<MonadoHandle>,
}

/// What asking for the runtime-control handle answers in a given state.
pub open spec fn acquire_result(s: AppState) -> MonadoAccess {
    match s.monado {
        Option::None => MonadoAccess::Unavailable,
        Option::Some(m) => if m.held {
            MonadoAccess::Busy
        } else {
            MonadoAccess::Acquired(MonadoLease {})
        },
    }
}

/// The state after asking for the runtime-control handle: marked held
/// exactly when the request was granted a lease.
pub open spec fn acquire_next(s: AppState) -> AppState {
    match s.monado {
        Option::Some(m) => if m.held {
            s
        } else {
            AppState { monado: Option::Some(MonadoHandle { held: true }), ..s }
        },
        Option::None => s,
    }
}

/// The state after a lease on the runtime-control handle is given back.
pub open spec fn release_next(s: AppState) -> AppState {
    match s.monado {
        Option::Some(m) => AppState { monado: Option::Some(MonadoHandle { held: false }), ..s },
        Option::None => s,
    }
}

/// The state after installing the signal-dispatch callback on behalf of the
/// emitter `emitter`: unchanged when no IPC client is present, else the
/// client's single callback slot holds the new handler and nothing else.
pub open spec fn configure_next(s: AppState, emitter: u64) -> AppState {
    match s.wayvr_client {
        Option::None => s,
        Option::Some(c) => AppState {
            wayvr_client: Option::Some(IpcClient {
                on_signal: Option::Some(SignalHandler { emitter }),
            }),
            ..s
        },
    }
}

/// Whether installing the signal-dispatch callback is a no-op or installs.
pub open spec fn configure_result(s: AppState) -> ConfigureOutcome {
    if s.wayvr_client is Some {
        ConfigureOutcome::Installed
    } else {
        ConfigureOutcome::Skipped
    }
}

impl AppState {
    /// Builds the aggregate from the outcomes of the three startup steps the
    /// host performed: Steam-bridge construction (fatal if it failed), the
    /// runtime-control connection attempt and the IPC-client connection
    /// attempt (both best-effort). On success the runtime handle, if
    /// connected, is wrapped unheld; the IPC client, if connected, starts
    /// with an empty callback slot; the identifier generator starts at zero.
    pub fn new(
        steam_bridge: Option<SteamBridge>,
        monado_connected: bool,
        wayvr_connected: bool,
    ) -> (r: Result<AppState, StartupError>)
        ensures
            r is Ok <==> steam_bridge is Some,
            r matches Err(e) ==> e == StartupError::SteamBridgeFailed,
            r matches Ok(s) ==> {
                &&& Option::Some(s.steam_bridge) == steam_bridge
                &&& s.monado == (if monado_connected {
                    Option::Some(MonadoHandle { held: false })
                } else {
                    Option::<MonadoHandle>::None
                })
                &&& s.wayvr_client == (if wayvr_connected {
                    Option::Some(IpcClient { on_signal: Option::None })
                } else {
                    Option::<IpcClient>::None
                })
                &&& s.serial_generator.counter == 0
            },
    {
        match steam_bridge {
            None => Err(StartupError::SteamBridgeFailed),
            Some(bridge) => {
                let serial_generator = SerialGenerator::new();
                let monado = if monado_connected {
                    Some(MonadoHandle { held: false })
                } else {
                    None
                };
                let wayvr_client = if wayvr_connected {
                    Some(IpcClient { on_signal: None })
                } else {
                    None
                };
                Ok(AppState { steam_bridge: bridge, wayvr_client, serial_generator, monado })
            },
        }
    }

    /// Asks for exclusive access to the runtime-control handle. Answers
    /// `Unavailable` when no runtime connection exists, `Busy` while another
    /// lease is outstanding, and otherwise grants the lease and marks the
    /// handle held.
    pub fn get_monado(&mut self) -> (r: MonadoAccess)
        ensures
            r == acquire_result(*old(self)),
            *final(self) == acquire_next(*old(self)),
    {
        match self.monado {
            None => MonadoAccess::Unavailable,
            Some(m) => {
                if m.held {
                    MonadoAccess::Busy
                } else {
                    self.monado = Some(MonadoHandle { held: true });
                    MonadoAccess::Acquired(MonadoLease {})
                }
            },
        }
    }

    /// Gives a lease back, ending it; the handle can then be acquired again.
    /// Consuming the lease by value is what makes release final: no copy of
    /// it stays with the former holder.
    pub fn release_monado(&mut self, lease: MonadoLease)
        requires
            old(self).monado matches Some(m) && m.held,
        ensures
            *final(self) == release_next(*old(self)),
    {
        let MonadoLease {} = lease;
        self.monado = Some(MonadoHandle { held: false });
    }

    /// Installs the signal-dispatch callback for the emitter `emitter`. When
    /// no IPC client is present this is a graceful no-op that changes
    /// nothing; when one is present, the client's single callback slot is
    /// overwritten with the new handler, replacing any previous one.
    pub fn configure_signal_handler(&mut self, emitter: u64) -> (r: ConfigureOutcome)
        ensures
            r == configure_result(*old(self)),
            *final(self) == configure_next(*old(self), emitter),
    {
        match self.wayvr_client {
            None => ConfigureOutcome::Skipped,
            Some(_) => {
                self.wayvr_client = Some(IpcClient {
                    on_signal: Some(SignalHandler { emitter }),
                });
                ConfigureOutcome::Installed
            },
        }
    }
}

/// The handle guard admits at most one holder: an acquisition that grants a
/// lease leaves the handle held, so every further acquisition before the
/// release answers `Busy`; after a release the next acquisition is granted
/// again; and when no runtime connection exists the answer is always
/// `Unavailable`, never a lease.
pub proof fn lemma_exclusive_lease(s: AppState)
    ensures
        acquire_result(s) is Acquired ==> acquire_result(acquire_next(s)) is Busy,
        s.monado is Some ==> acquire_result(release_next(s)) is Acquired,
        s.monado is None ==> acquire_result(s) is Unavailable,
{
}

/// Installing the dispatch callback a second time replaces the first rather
/// than stacking on it: the state after two installations is exactly the
/// state after the second alone, and the one callback slot holds the handler
/// of the most recent installation.
pub proof fn lemma_configure_replaces(s: AppState, first: u64, second: u64)
    ensures
        configure_next(configure_next(s, first), second) == configure_next(s, second),
        s.wayvr_client is Some ==> configure_next(configure_next(s, first), second).wayvr_client
            == Option::Some(IpcClient { on_signal: Option::Some(SignalHandler { emitter: second }) }),
{
}

} // verus!
