use vstd::prelude::*;
use crate::settings::WIFI_HOLD_MS;

verus! {

/// What the Wi-Fi keeper asks the firmware to do next. Each command stays
/// outstanding until the firmware reports its outcome.
#[derive(Debug, Clone, Copy, PartialEq, Eq)]
pub enum WifiCommand {
    /// Read the station state of the radio.
    ReadState,
    /// Wait until the radio reports that the station was disconnected.
    AwaitDisconnect,
    /// Hold for the given milliseconds after a disconnection.
    SettleAfterDisconnect(u64),
    /// Ask the controller whether it is running.
    ReadRunning,
    /// Give the controller the station configuration (SSID and passphrase).
    Configure,
    /// Start the controller.
    StartController,
    /// Associate with the access point.
    Connect,
    /// Hold for the given milliseconds after a failed association.
    BackOff(u64),
}

/// What the firmware reports back for the outstanding command.
#[derive(Debug, Clone, Copy, PartialEq, Eq)]
pub enum WifiOutcome {
    /// Answer to `ReadState`: whether the station is connected.
    State(bool),
    /// Answer to `AwaitDisconnect`.
    Disconnected,
    /// Answer to a hold: the time has elapsed.
    Elapsed,
    /// Answer to `ReadRunning`: `Some(running)`, or `None` when the query failed.
    Running(Option<bool>),
    /// Answer to `Configure`.
    Configured,
    /// Answer to `StartController`.
    ControllerStarted,
    /// Answer to `Connect`: the station is associated.
    Connected,
    /// Answer to `Connect`: the association failed.
    ConnectFailed,
}

/// The command the keeper issues first.
pub open spec fn wifi_initial() -> WifiCommand {
    WifiCommand::ReadState
}

/// Whether `o` is an answer to the command `c`.
pub open spec fn wifi_answers(c: WifiCommand, o: WifiOutcome) -> bool {
    match c {
        WifiCommand::ReadState => o is State,
        WifiCommand::AwaitDisconnect => o is Disconnected,
        WifiCommand::SettleAfterDisconnect(_) => o is Elapsed,
        WifiCommand::ReadRunning => o is Running,
        WifiCommand::Configure => o is Configured,
        WifiCommand::StartController => o is ControllerStarted,
        WifiCommand::Connect => o is Connected || o is ConnectFailed,
        WifiCommand::BackOff(_) => o is Elapsed,
    }
}

/// The keeper's rules: the command that follows `c` once `o` is reported.
/// An outcome that does not answer `c` leaves `c` outstanding.
pub open spec fn wifi_next(c: WifiCommand, o: WifiOutcome) -> WifiCommand {
    match (c, o) {
        (WifiCommand::ReadState, WifiOutcome::State(true)) => WifiCommand::AwaitDisconnect,
        (WifiCommand::ReadState, WifiOutcome::State(false)) => WifiCommand::ReadRunning,
        (WifiCommand::AwaitDisconnect, WifiOutcome::Disconnected) =>
            WifiCommand::SettleAfterDisconnect(WIFI_HOLD_MS),
        (WifiCommand::SettleAfterDisconnect(_), WifiOutcome::Elapsed) => WifiCommand::ReadRunning,
        (WifiCommand::ReadRunning, WifiOutcome::Running(Some(true))) => WifiCommand::Connect,
        (WifiCommand::ReadRunning, WifiOutcome::Running(_)) => WifiCommand::Configure,
        (WifiCommand::Configure, WifiOutcome::Configured) => WifiCommand::StartController,
        (WifiCommand::StartController, WifiOutcome::ControllerStarted) => WifiCommand::Connect,
        (WifiCommand::Connect, WifiOutcome::Connected) => WifiCommand::ReadState,
        (WifiCommand::Connect, WifiOutcome::ConnectFailed) => WifiCommand::BackOff(WIFI_HOLD_MS),
        (WifiCommand::BackOff(_), WifiOutcome::Elapsed) => WifiCommand::ReadState,
        _ => c,
    }
}

/// The first command of the Wi-Fi keeper: read the station state.
pub fn wifi_start() -> (c: WifiCommand)
    ensures
        c == wifi_initial(),
{
    WifiCommand::ReadState
}

/// The command that follows `pending` once the firmware reports `outcome`.
pub fn wifi_step(pending: WifiCommand, outcome: WifiOutcome) -> (next: WifiCommand)
    ensures
        next == wifi_next(pending, outcome),
        pending == WifiCommand::ReadState && outcome == WifiOutcome::State(true) ==> next
            == WifiCommand::AwaitDisconnect,
        pending == WifiCommand::ReadState && outcome == WifiOutcome::State(false) ==> next
            == WifiCommand::ReadRunning,
        pending == WifiCommand::AwaitDisconnect && outcome == WifiOutcome::Disconnected ==> next
            == WifiCommand::SettleAfterDisconnect(WIFI_HOLD_MS),
        pending is SettleAfterDisconnect && outcome == WifiOutcome::Elapsed ==> next
            == WifiCommand::ReadRunning,
        pending == WifiCommand::ReadRunning && outcome == WifiOutcome::Running(Some(true)) ==> next
            == WifiCommand::Connect,
        pending == WifiCommand::ReadRunning && outcome is Running && outcome != WifiOutcome::Running(
            Some(true),
        ) ==> next == WifiCommand::Configure,
        pending == WifiCommand::Configure && outcome == WifiOutcome::Configured ==> next
            == WifiCommand::StartController,
        pending == WifiCommand::StartController && outcome == WifiOutcome::ControllerStarted ==> next
            == WifiCommand::Connect,
        pending == WifiCommand::Connect && outcome == WifiOutcome::Connected ==> next
            == WifiCommand::ReadState,
        pending == WifiCommand::Connect && outcome == WifiOutcome::ConnectFailed ==> next
            == WifiCommand::BackOff(WIFI_HOLD_MS),
        pending is BackOff && outcome == WifiOutcome::Elapsed ==> next == WifiCommand::ReadState,
        !wifi_answers(pending, outcome) ==> next == pending,
{
    match pending {
        WifiCommand::ReadState => match outcome {
            WifiOutcome::State(connected) => {
                if connected {
                    WifiCommand::AwaitDisconnect
                } else {
                    WifiCommand::ReadRunning
                }
            },
            _ => pending,
        },
        WifiCommand::AwaitDisconnect => match outcome {
            WifiOutcome::Disconnected => WifiCommand::SettleAfterDisconnect(WIFI_HOLD_MS),
            _ => pending,
        },
        WifiCommand::SettleAfterDisconnect(_) => match outcome {
            WifiOutcome::Elapsed => WifiCommand::ReadRunning,
            _ => pending,
        },
        WifiCommand::ReadRunning => match outcome {
            WifiOutcome::Running(Some(true)) => WifiCommand::Connect,
            WifiOutcome::Running(_) => WifiCommand::Configure,
            _ => pending,
        },
        WifiCommand::Configure => match outcome {
            WifiOutcome::Configured => WifiCommand::StartController,
            _ => pending,
        },
        WifiCommand::StartController => match outcome {
            WifiOutcome::ControllerStarted => WifiCommand::Connect,
            _ => pending,
        },
        WifiCommand::Connect => match outcome {
            WifiOutcome::Connected => WifiCommand::ReadState,
            WifiOutcome::ConnectFailed => WifiCommand::BackOff(WIFI_HOLD_MS),
            _ => pending,
        },
        WifiCommand::BackOff(_) => match outcome {
            WifiOutcome::Elapsed => WifiCommand::ReadState,
            _ => pending,
        },
    }
}

} // verus!
