use gophers_fishbowl::session::{
    broker_failure, session_start, session_step, BrokerFailure, SessionCommand, SessionOutcome,
};
use gophers_fishbowl::settings::{ATTEMPT_PAUSE_MS, BROKER_PORT, POLL_INTERVAL_MS, PUBLISH_PERIOD_MS};

fn run(outcomes: Vec<SessionOutcome>) -> Vec<SessionCommand> {
    let mut c = session_start();
    let mut out = vec![c];
    for o in outcomes {
        c = session_step(c, o);
        out.push(c);
    }
    out
}

#[test]
fn session_settings_match_the_firmware() {
    assert_eq!(BROKER_PORT, 1883);
    assert_eq!(POLL_INTERVAL_MS, 500);
    assert_eq!(ATTEMPT_PAUSE_MS, 1000);
    assert_eq!(PUBLISH_PERIOD_MS, 3000);
}

#[test]
fn happy_path_from_boot_to_periodic_publishing() {
    let cmds = run(vec![
        SessionOutcome::Link(false),
        SessionOutcome::Elapsed,
        SessionOutcome::Link(true),
        SessionOutcome::Address(false),
        SessionOutcome::Elapsed,
        SessionOutcome::Address(true),
        SessionOutcome::Elapsed,
        SessionOutcome::Resolved(vec![[18, 192, 2, 7]]),
        SessionOutcome::TcpConnected,
        SessionOutcome::BrokerConnected,
        SessionOutcome::Published,
        SessionOutcome::Elapsed,
    ]);
    assert_eq!(
        cmds,
        vec![
            SessionCommand::CheckLink,
            SessionCommand::AwaitLink(500),
            SessionCommand::CheckLink,
            SessionCommand::CheckAddress,
            SessionCommand::AwaitAddress(500),
            SessionCommand::CheckAddress,
            SessionCommand::Pause(1000),
            SessionCommand::Resolve,
            SessionCommand::OpenTcp([18, 192, 2, 7], 1883),
            SessionCommand::ConnectBroker,
            SessionCommand::Publish,
            SessionCommand::Rest(3000),
            SessionCommand::Publish,
        ]
    );
}

#[test]
fn tcp_connection_uses_the_first_resolved_address() {
    let next = session_step(
        SessionCommand::Resolve,
        SessionOutcome::Resolved(vec![[1, 2, 3, 4], [5, 6, 7, 8]]),
    );
    assert_eq!(next, SessionCommand::OpenTcp([1, 2, 3, 4], 1883));
}

#[test]
fn lookup_failure_pauses_before_a_new_attempt() {
    assert_eq!(session_step(SessionCommand::Resolve, SessionOutcome::ResolveFailed), SessionCommand::Pause(1000));
    assert_eq!(session_step(SessionCommand::Pause(1000), SessionOutcome::Elapsed), SessionCommand::Resolve);
}

#[test]
fn tcp_failure_pauses_before_a_new_attempt() {
    assert_eq!(
        session_step(SessionCommand::OpenTcp([1, 2, 3, 4], 1883), SessionOutcome::TcpFailed),
        SessionCommand::Pause(1000)
    );
}

#[test]
fn broker_refusal_pauses_before_a_new_attempt() {
    assert_eq!(
        session_step(SessionCommand::ConnectBroker, SessionOutcome::BrokerRefused(0xFF)),
        SessionCommand::Pause(1000)
    );
    assert_eq!(
        session_step(SessionCommand::ConnectBroker, SessionOutcome::BrokerRefused(0x87)),
        SessionCommand::Pause(1000)
    );
}

#[test]
fn failed_publication_is_retried_at_once() {
    assert_eq!(
        session_step(SessionCommand::Publish, SessionOutcome::PublishFailed(0xFF)),
        SessionCommand::Publish
    );
}

#[test]
fn session_is_kept_through_failures() {
    let mut c = SessionCommand::Publish;
    let outs = vec![
        SessionOutcome::PublishFailed(0xFF),
        SessionOutcome::PublishFailed(0x80),
        SessionOutcome::Published,
        SessionOutcome::TcpFailed,
        SessionOutcome::Elapsed,
        SessionOutcome::ResolveFailed,
    ];
    for o in outs {
        c = session_step(c, o);
        assert!(matches!(c, SessionCommand::Publish | SessionCommand::Rest(_)));
    }
}

#[test]
fn no_attempt_before_the_link_and_address() {
    let cmds = run(vec![
        SessionOutcome::Link(false),
        SessionOutcome::Address(true),
        SessionOutcome::Elapsed,
        SessionOutcome::TcpConnected,
        SessionOutcome::Link(true),
        SessionOutcome::BrokerConnected,
        SessionOutcome::Address(true),
    ]);
    assert_eq!(cmds[7], SessionCommand::Pause(1000));
    assert!(cmds[..7]
        .iter()
        .all(|c| matches!(c, SessionCommand::CheckLink | SessionCommand::AwaitLink(_) | SessionCommand::CheckAddress | SessionCommand::AwaitAddress(_))));
}

#[test]
fn network_error_code_is_a_transport_failure() {
    assert_eq!(broker_failure(0xFF), BrokerFailure::Network);
}

#[test]
fn other_reason_codes_are_reported_as_they_are() {
    assert_eq!(broker_failure(0x87), BrokerFailure::Other(0x87));
    assert_eq!(broker_failure(0x00), BrokerFailure::Other(0x00));
    assert_eq!(broker_failure(0xFE), BrokerFailure::Other(0xFE));
}
