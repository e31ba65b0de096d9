use vstd::prelude::*;
use crate::settings::{ATTEMPT_PAUSE_MS, BROKER_PORT, NETWORK_ERROR_CODE, POLL_INTERVAL_MS, PUBLISH_PERIOD_MS};

verus! {

/// An IPv4 address, as its four octets.
pub type Ipv4 = [u8; 4];

/// What the publisher asks the firmware to do next. Each command stays
/// outstanding until the firmware reports its outcome.
#[derive(Debug, Clone, Copy, PartialEq, Eq)]
pub enum SessionCommand {
    /// Ask the network stack whether the link is up.
    CheckLink,
    /// Wait the given milliseconds, then look at the link again.
    AwaitLink(u64),
    /// Ask the network stack whether it holds an IPv4 configuration.
    CheckAddress,
    /// Wait the given milliseconds, then look at the configuration again.
    AwaitAddress(u64),
    /// Wait the given milliseconds before an attempt to reach the broker.
    Pause(u64),
    /// Open a fresh TCP socket and resolve the broker's host name.
    Resolve,
    /// Connect the socket to the given address and port.
    OpenTcp(Ipv4, u16),
    /// Set up the MQTT client over the socket and connect to the broker.
    ConnectBroker,
    /// Publish one reading.
    Publish,
    /// Wait the given milliseconds before the next reading.
    Rest(u64),
}

/// What the firmware reports back for the outstanding command.
#[derive(Debug, Clone, PartialEq, Eq)]
pub enum SessionOutcome {
    /// Answer to `CheckLink`: whether the link is up.
    Link(bool),
    /// Answer to a wait: the time has elapsed.
    Elapsed,
    /// Answer to `CheckAddress`: whether an IPv4 configuration is held.
    Address(bool),
    /// Answer to `Resolve`: the addresses found, in the resolver's order.
    Resolved(Vec<Ipv4>),
    /// Answer to `Resolve`: the lookup failed.
    ResolveFailed,
    /// Answer to `OpenTcp`: the connection is established.
    TcpConnected,
    /// Answer to `OpenTcp`: the connection failed.
    TcpFailed,
    /// Answer to `ConnectBroker`: the broker accepted the client.
    BrokerConnected,
    /// Answer to `ConnectBroker`: it failed with the given MQTT reason code.
    BrokerRefused(u8),
    /// Answer to `Publish`: the reading was delivered.
    Published,
    /// Answer to `Publish`: it failed with the given MQTT reason code.
    PublishFailed(u8),
}

/// The command the publisher issues first.
pub open spec fn session_initial() -> SessionCommand {
    SessionCommand::CheckLink
}

/// Whether `o` is an answer to the command `c`. A resolver answer carries at
/// least one address.
pub open spec fn session_answers(c: SessionCommand, o: SessionOutcome) -> bool {
    match c {
        SessionCommand::CheckLink => o is Link,
        SessionCommand::AwaitLink(_) => o is Elapsed,
        SessionCommand::CheckAddress => o is Address,
        SessionCommand::AwaitAddress(_) => o is Elapsed,
        SessionCommand::Pause(_) => o is Elapsed,
        SessionCommand::Resolve => o is ResolveFailed || (o matches SessionOutcome::Resolved(a)
            && a@.len() > 0),
        SessionCommand::OpenTcp(_, _) => o is TcpConnected || o is TcpFailed,
        SessionCommand::ConnectBroker => o is BrokerConnected || o is BrokerRefused,
        SessionCommand::Publish => o is Published || o is PublishFailed,
        SessionCommand::Rest(_) => o is Elapsed,
    }
}

/// The publisher's rules: the command that follows `c` once `o` is reported.
/// An outcome that does not answer `c` leaves `c` outstanding.
pub open spec fn session_next(c: SessionCommand, o: SessionOutcome) -> SessionCommand {
    match (c, o) {
        (SessionCommand::CheckLink, SessionOutcome::Link(true)) => SessionCommand::CheckAddress,
        (SessionCommand::CheckLink, SessionOutcome::Link(false)) => SessionCommand::AwaitLink(
            POLL_INTERVAL_MS,
        ),
        (SessionCommand::AwaitLink(_), SessionOutcome::Elapsed) => SessionCommand::CheckLink,
        (SessionCommand::CheckAddress, SessionOutcome::Address(true)) => SessionCommand::Pause(
            ATTEMPT_PAUSE_MS,
        ),
        (SessionCommand::CheckAddress, SessionOutcome::Address(false)) =>
            SessionCommand::AwaitAddress(POLL_INTERVAL_MS),
        (SessionCommand::AwaitAddress(_), SessionOutcome::Elapsed) => SessionCommand::CheckAddress,
        (SessionCommand::Pause(_), SessionOutcome::Elapsed) => SessionCommand::Resolve,
        (SessionCommand::Resolve, SessionOutcome::Resolved(a)) => if a@.len() > 0 {
            SessionCommand::OpenTcp(a@[0], BROKER_PORT)
        } else {
            c
        },
        (SessionCommand::Resolve, SessionOutcome::ResolveFailed) => SessionCommand::Pause(
            ATTEMPT_PAUSE_MS,
        ),
        (SessionCommand::OpenTcp(_, _), SessionOutcome::TcpConnected) =>
            SessionCommand::ConnectBroker,
        (SessionCommand::OpenTcp(_, _), SessionOutcome::TcpFailed) => SessionCommand::Pause(
            ATTEMPT_PAUSE_MS,
        ),
        (SessionCommand::ConnectBroker, SessionOutcome::BrokerConnected) => SessionCommand::Publish,
        (SessionCommand::ConnectBroker, SessionOutcome::BrokerRefused(_)) => SessionCommand::Pause(
            ATTEMPT_PAUSE_MS,
        ),
        (SessionCommand::Publish, SessionOutcome::Published) => SessionCommand::Rest(
            PUBLISH_PERIOD_MS,
        ),
        (SessionCommand::Publish, SessionOutcome::PublishFailed(_)) => SessionCommand::Publish,
        (SessionCommand::Rest(_), SessionOutcome::Elapsed) => SessionCommand::Publish,
        _ => c,
    }
}

/// The first command of the publisher: look at the link.
pub fn session_start() -> (c: SessionCommand)
    ensures
        c == session_initial(),
{
    SessionCommand::CheckLink
}

/// The command that follows `pending` once the firmware reports `outcome`.
/// A resolver answer must carry an address: the firmware takes the first.
pub fn session_step(pending: SessionCommand, outcome: SessionOutcome) -> (next: SessionCommand)
    requires
        pending == SessionCommand::Resolve ==> (outcome matches SessionOutcome::Resolved(a)
            ==> a@.len() > 0),
    ensures
        next == session_next(pending, outcome),
        pending == SessionCommand::CheckLink && outcome == SessionOutcome::Link(true) ==> next
            == SessionCommand::CheckAddress,
        pending == SessionCommand::CheckLink && outcome == SessionOutcome::Link(false) ==> next
            == SessionCommand::AwaitLink(POLL_INTERVAL_MS),
        pending is AwaitLink && outcome == SessionOutcome::Elapsed ==> next
            == SessionCommand::CheckLink,
        pending == SessionCommand::CheckAddress && outcome == SessionOutcome::Address(true) ==> next
            == SessionCommand::Pause(ATTEMPT_PAUSE_MS),
        pending == SessionCommand::CheckAddress && outcome == SessionOutcome::Address(false)
            ==> next == SessionCommand::AwaitAddress(POLL_INTERVAL_MS),
        pending is AwaitAddress && outcome == SessionOutcome::Elapsed ==> next
            == SessionCommand::CheckAddress,
        pending is Pause && outcome == SessionOutcome::Elapsed ==> next == SessionCommand::Resolve,
        pending == SessionCommand::Resolve ==> (outcome matches SessionOutcome::Resolved(a) ==> (
        a@.len() > 0 ==> next == SessionCommand::OpenTcp(a@[0], BROKER_PORT))),
        pending == SessionCommand::Resolve && outcome == SessionOutcome::ResolveFailed ==> next
            == SessionCommand::Pause(ATTEMPT_PAUSE_MS),
        pending is OpenTcp && outcome == SessionOutcome::TcpConnected ==> next
            == SessionCommand::ConnectBroker,
        pending is OpenTcp && outcome == SessionOutcome::TcpFailed ==> next == SessionCommand::Pause(
            ATTEMPT_PAUSE_MS,
        ),
        pending == SessionCommand::ConnectBroker && outcome == SessionOutcome::BrokerConnected ==> next
            == SessionCommand::Publish,
        pending == SessionCommand::ConnectBroker && outcome is BrokerRefused ==> next
            == SessionCommand::Pause(ATTEMPT_PAUSE_MS),
        pending == SessionCommand::Publish && outcome == SessionOutcome::Published ==> next
            == SessionCommand::Rest(PUBLISH_PERIOD_MS),
        pending == SessionCommand::Publish && outcome is PublishFailed ==> next
            == SessionCommand::Publish,
        pending is Rest && outcome == SessionOutcome::Elapsed ==> next == SessionCommand::Publish,
        !session_answers(pending, outcome) ==> next == pending,
{
    match pending {
        SessionCommand::CheckLink => match outcome {
            SessionOutcome::Link(up) => {
                if up {
                    SessionCommand::CheckAddress
                } else {
                    SessionCommand::AwaitLink(POLL_INTERVAL_MS)
                }
            },
            _ => pending,
        },
        SessionCommand::AwaitLink(_) => match outcome {
            SessionOutcome::Elapsed => SessionCommand::CheckLink,
            _ => pending,
        },
        SessionCommand::CheckAddress => match outcome {
            SessionOutcome::Address(held) => {
                if held {
                    SessionCommand::Pause(ATTEMPT_PAUSE_MS)
                } else {
                    SessionCommand::AwaitAddress(POLL_INTERVAL_MS)
                }
            },
            _ => pending,
        },
        SessionCommand::AwaitAddress(_) => match outcome {
            SessionOutcome::Elapsed => SessionCommand::CheckAddress,
            _ => pending,
        },
        SessionCommand::Pause(_) => match outcome {
            SessionOutcome::Elapsed => SessionCommand::Resolve,
            _ => pending,
        },
        SessionCommand::Resolve => match outcome {
            SessionOutcome::Resolved(addresses) => SessionCommand::OpenTcp(
                addresses[0],
                BROKER_PORT,
            ),
            SessionOutcome::ResolveFailed => SessionCommand::Pause(ATTEMPT_PAUSE_MS),
            _ => pending,
        },
        SessionCommand::OpenTcp(_, _) => match outcome {
            SessionOutcome::TcpConnected => SessionCommand::ConnectBroker,
            SessionOutcome::TcpFailed => SessionCommand::Pause(ATTEMPT_PAUSE_MS),
            _ => pending,
        },
        SessionCommand::ConnectBroker => match outcome {
            SessionOutcome::BrokerConnected => SessionCommand::Publish,
            SessionOutcome::BrokerRefused(_) => SessionCommand::Pause(ATTEMPT_PAUSE_MS),
            _ => pending,
        },
        SessionCommand::Publish => match outcome {
            SessionOutcome::Published => SessionCommand::Rest(PUBLISH_PERIOD_MS),
            SessionOutcome::PublishFailed(_) => SessionCommand::Publish,
            _ => pending,
        },
        SessionCommand::Rest(_) => match outcome {
            SessionOutcome::Elapsed => SessionCommand::Publish,
            _ => pending,
        },
    }
}

/// How an MQTT failure is reported.
#[derive(Debug, Clone, Copy, PartialEq, Eq)]
pub enum BrokerFailure {
    /// The transport under the MQTT client failed.
    Network,
    /// The broker or the client gave up with the given reason code.
    Other(u8),
}

/// Sorts an MQTT reason code: the network-error code stands for a transport
/// failure, every other code is reported as it is.
pub fn broker_failure(code: u8) -> (f: BrokerFailure)
    ensures
        code == NETWORK_ERROR_CODE <==> f == BrokerFailure::Network,
        code != NETWORK_ERROR_CODE ==> f == BrokerFailure::Other(code),
{
    if code == NETWORK_ERROR_CODE {
        BrokerFailure::Network
    } else {
        BrokerFailure::Other(code)
    }
}

} // verus!
