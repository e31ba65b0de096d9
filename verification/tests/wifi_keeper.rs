use gophers_fishbowl::settings::WIFI_HOLD_MS;
use gophers_fishbowl::wifi::{wifi_start, wifi_step, WifiCommand, WifiOutcome};

fn run(outcomes: &[WifiOutcome]) -> Vec<WifiCommand> {
    let mut c = wifi_start();
    let mut out = vec![c];
    for o in outcomes {
        c = wifi_step(c, *o);
        out.push(c);
    }
    out
}

#[test]
fn keeper_starts_by_reading_the_station_state() {
    assert_eq!(wifi_start(), WifiCommand::ReadState);
}

#[test]
fn cold_start_configures_starts_and_connects() {
    let cmds = run(&[
        WifiOutcome::State(false),
        WifiOutcome::Running(Some(false)),
        WifiOutcome::Configured,
        WifiOutcome::ControllerStarted,
        WifiOutcome::Connected,
    ]);
    assert_eq!(
        cmds,
        vec![
            WifiCommand::ReadState,
            WifiCommand::ReadRunning,
            WifiCommand::Configure,
            WifiCommand::StartController,
            WifiCommand::Connect,
            WifiCommand::ReadState,
        ]
    );
}

#[test]
fn failed_running_query_reconfigures() {
    assert_eq!(wifi_step(WifiCommand::ReadRunning, WifiOutcome::Running(None)), WifiCommand::Configure);
}

#[test]
fn running_controller_connects_without_reconfiguring() {
    assert_eq!(
        wifi_step(WifiCommand::ReadRunning, WifiOutcome::Running(Some(true))),
        WifiCommand::Connect
    );
}

#[test]
fn connected_station_waits_for_disconnection_then_settles() {
    let cmds = run(&[WifiOutcome::State(true), WifiOutcome::Disconnected, WifiOutcome::Elapsed]);
    assert_eq!(
        cmds,
        vec![
            WifiCommand::ReadState,
            WifiCommand::AwaitDisconnect,
            WifiCommand::SettleAfterDisconnect(5000),
            WifiCommand::ReadRunning,
        ]
    );
}

#[test]
fn failed_association_backs_off_for_five_seconds() {
    assert_eq!(WIFI_HOLD_MS, 5000);
    assert_eq!(wifi_step(WifiCommand::Connect, WifiOutcome::ConnectFailed), WifiCommand::BackOff(5000));
    assert_eq!(wifi_step(WifiCommand::BackOff(5000), WifiOutcome::Elapsed), WifiCommand::ReadState);
}

#[test]
fn retry_after_failure_passes_through_back_off() {
    let outs = [
        WifiOutcome::State(false),
        WifiOutcome::Running(Some(true)),
        WifiOutcome::ConnectFailed,
        WifiOutcome::Elapsed,
        WifiOutcome::State(false),
        WifiOutcome::Running(Some(true)),
    ];
    let cmds = run(&outs);
    assert_eq!(cmds[2], WifiCommand::Connect);
    assert_eq!(cmds[3], WifiCommand::BackOff(5000));
    assert_eq!(outs[3], WifiOutcome::Elapsed);
    assert_eq!(cmds[6], WifiCommand::Connect);
}

#[test]
fn stray_outcome_leaves_the_command_outstanding() {
    assert_eq!(wifi_step(WifiCommand::Connect, WifiOutcome::Elapsed), WifiCommand::Connect);
    assert_eq!(wifi_step(WifiCommand::BackOff(5000), WifiOutcome::Connected), WifiCommand::BackOff(5000));
    assert_eq!(wifi_step(WifiCommand::Configure, WifiOutcome::State(true)), WifiCommand::Configure);
}
