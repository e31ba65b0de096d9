use vstd::prelude::*;
use crate::session::{Ipv4, SessionCommand, SessionOutcome, session_answers, session_initial, session_next};
use crate::settings::{ATTEMPT_PAUSE_MS, BROKER_PORT, POLL_INTERVAL_MS, PUBLISH_PERIOD_MS};

verus! {

/// The commands the publisher issues when the firmware reports `outs` in
/// turn: the first command, then one more after each outcome.
pub open spec fn session_run(outs: Seq<SessionOutcome>) -> Seq<SessionCommand>
    decreases outs.len(),
{
    if outs.len() == 0 {
        seq![session_initial()]
    } else {
        let before = session_run(outs.drop_last());
        before.push(session_next(before.last(), outs.last()))
    }
}

/// Whether every outcome in `outs` answers the command it follows.
pub open spec fn session_answered(outs: Seq<SessionOutcome>) -> bool {
    forall|i: int|
        0 <= i < outs.len() ==> session_answers(#[trigger] session_run(outs)[i], outs[i])
}

/// Whether `c` belongs to the established broker session.
pub open spec fn in_session(c: SessionCommand) -> bool {
    c is Publish || c is Rest
}

/// Whether `c` comes after start-up: an attempt to reach the broker, or the
/// established session.
pub open spec fn past_start_up(c: SessionCommand) -> bool {
    c is Pause || c is Resolve || c is OpenTcp || c is ConnectBroker || in_session(c)
}

/// Whether `c` waits for the IPv4 configuration.
pub open spec fn in_address_phase(c: SessionCommand) -> bool {
    c is CheckAddress || c is AwaitAddress
}

/// A run starts with the first command and takes one step per outcome.
pub proof fn lemma_session_run(outs: Seq<SessionOutcome>)
    ensures
        session_run(outs).len() == outs.len() + 1,
        session_run(outs)[0] == session_initial(),
        forall|i: int|
            0 <= i < outs.len() ==> #[trigger] session_run(outs)[i + 1] == session_next(
                session_run(outs)[i],
                outs[i],
            ),
    decreases outs.len(),
{
    if outs.len() > 0 {
        let front = outs.drop_last();
        lemma_session_run(front);
        let before = session_run(front);
        assert forall|i: int| 0 <= i < outs.len() implies #[trigger] session_run(outs)[i + 1]
            == session_next(session_run(outs)[i], outs[i]) by {
            if i < outs.len() - 1 {
                assert(front[i] == outs[i]);
                assert(before[i + 1] == session_next(before[i], front[i]));
            }
        }
    }
}

/// The command at `j` follows from the one before it.
proof fn lemma_session_step_at(outs: Seq<SessionOutcome>, j: int)
    requires
        1 <= j <= outs.len(),
    ensures
        session_run(outs)[j] == session_next(session_run(outs)[j - 1], outs[j - 1]),
{
    lemma_session_run(outs);
    let p = j - 1;
    assert(session_run(outs)[p + 1] == session_next(session_run(outs)[p], outs[p]));
}

/// Waiting for an address comes only after the link was reported up.
proof fn lemma_address_after_link(outs: Seq<SessionOutcome>, j: int)
    requires
        0 <= j <= outs.len(),
        in_address_phase(session_run(outs)[j]) || past_start_up(session_run(outs)[j]),
    ensures
        exists|k: int|
            0 <= k < j && #[trigger] session_run(outs)[k] == SessionCommand::CheckLink && outs[k]
                == SessionOutcome::Link(true),
    decreases j,
{
    lemma_session_run(outs);
    let run = session_run(outs);
    assert(j != 0);
    lemma_session_step_at(outs, j);
    if in_address_phase(run[j - 1]) || past_start_up(run[j - 1]) {
        lemma_address_after_link(outs, j - 1);
    } else {
        assert(run[j - 1] == SessionCommand::CheckLink && outs[j - 1] == SessionOutcome::Link(true));
    }
}

/// The publisher stays off the network until it is online: whatever the
/// firmware reports, every attempt to reach the broker, and the session,
/// come after the link was reported up and, later, an IPv4 configuration was
/// reported held.
pub proof fn law_online_before_broker(outs: Seq<SessionOutcome>, j: int)
    requires
        0 <= j <= outs.len(),
        past_start_up(session_run(outs)[j]),
    ensures
        exists|k: int, l: int|
            0 <= l < k < j && #[trigger] session_run(outs)[k] == SessionCommand::CheckAddress
                && outs[k] == SessionOutcome::Address(true) && #[trigger] session_run(outs)[l]
                == SessionCommand::CheckLink && outs[l] == SessionOutcome::Link(true),
    decreases j,
{
    lemma_session_run(outs);
    let run = session_run(outs);
    assert(j != 0);
    lemma_session_step_at(outs, j);
    if past_start_up(run[j - 1]) {
        law_online_before_broker(outs, j - 1);
    } else {
        assert(run[j - 1] == SessionCommand::CheckAddress && outs[j - 1] == SessionOutcome::Address(
            true,
        ));
        lemma_address_after_link(outs, j - 1);
        let l = choose|l: int|
            0 <= l < j - 1 && #[trigger] session_run(outs)[l] == SessionCommand::CheckLink
                && outs[l] == SessionOutcome::Link(true);
        assert(run[l] == SessionCommand::CheckLink);
    }
}

/// Readings are published only over an established broker session: every
/// `Publish`, and every rest between readings, comes after the broker
/// accepted the client.
pub proof fn law_publish_only_after_broker_accepts(outs: Seq<SessionOutcome>, j: int)
    requires
        0 <= j <= outs.len(),
        in_session(session_run(outs)[j]),
    ensures
        exists|k: int|
            0 <= k < j && #[trigger] session_run(outs)[k] == SessionCommand::ConnectBroker
                && outs[k] == SessionOutcome::BrokerConnected,
    decreases j,
{
    lemma_session_run(outs);
    let run = session_run(outs);
    assert(j != 0);
    lemma_session_step_at(outs, j);
    if in_session(run[j - 1]) {
        law_publish_only_after_broker_accepts(outs, j - 1);
    } else {
        assert(run[j - 1] == SessionCommand::ConnectBroker);
    }
}

/// Once the broker accepted the client, the publisher never goes back to
/// connecting: it keeps publishing and resting, whatever the firmware
/// reports, failed publications included.
pub proof fn law_session_is_kept(outs: Seq<SessionOutcome>, i: int, j: int)
    requires
        0 <= i <= j <= outs.len(),
        in_session(session_run(outs)[i]),
    ensures
        in_session(session_run(outs)[j]),
    decreases j - i,
{
    if i < j {
        lemma_session_run(outs);
        lemma_session_step_at(outs, i + 1);
        law_session_is_kept(outs, i + 1, j);
    }
}

/// In a session, a delivered reading is followed by a rest of the publish
/// period, and a reading that failed is published again at once.
pub proof fn law_publish_cadence(outs: Seq<SessionOutcome>, i: int)
    requires
        0 <= i < outs.len(),
        session_run(outs)[i] == SessionCommand::Publish,
    ensures
        outs[i] == SessionOutcome::Published ==> session_run(outs)[i + 1] == SessionCommand::Rest(
            PUBLISH_PERIOD_MS,
        ),
        outs[i] is PublishFailed ==> session_run(outs)[i + 1] == SessionCommand::Publish,
{
    lemma_session_run(outs);
}

/// Every TCP connection the publisher opens goes to the broker's port, at
/// the first address the resolver gave in answer to the `Resolve` just
/// before it.
pub proof fn law_tcp_goes_to_first_resolved_address(outs: Seq<SessionOutcome>, j: int)
    requires
        session_answered(outs),
        0 <= j <= outs.len(),
        session_run(outs)[j] is OpenTcp,
    ensures
        j >= 1,
        session_run(outs)[j - 1] == SessionCommand::Resolve,
        outs[j - 1] matches SessionOutcome::Resolved(a) && a@.len() > 0 && session_run(outs)[j]
            == SessionCommand::OpenTcp(a@[0], BROKER_PORT),
{
    lemma_session_run(outs);
    let run = session_run(outs);
    assert(j != 0);
    lemma_session_step_at(outs, j);
    assert(session_answers(run[j - 1], outs[j - 1]));
}

/// Every broker connection runs over a TCP connection that was just opened:
/// the `ConnectBroker` directly follows a successful `OpenTcp`.
pub proof fn law_broker_over_fresh_connection(outs: Seq<SessionOutcome>, j: int)
    requires
        session_answered(outs),
        0 <= j <= outs.len(),
        session_run(outs)[j] == SessionCommand::ConnectBroker,
    ensures
        j >= 1,
        session_run(outs)[j - 1] is OpenTcp,
        outs[j - 1] == SessionOutcome::TcpConnected,
{
    lemma_session_run(outs);
    let run = session_run(outs);
    assert(j != 0);
    lemma_session_step_at(outs, j);
    assert(session_answers(run[j - 1], outs[j - 1]));
}

/// Every failed step of an attempt to reach the broker (the lookup, the TCP
/// connection or the broker handshake) leads back to the pause before a new
/// attempt.
pub proof fn law_failed_attempt_pauses(outs: Seq<SessionOutcome>, i: int)
    requires
        0 <= i < outs.len(),
        (session_run(outs)[i] == SessionCommand::Resolve && outs[i] == SessionOutcome::ResolveFailed)
            || (session_run(outs)[i] is OpenTcp && outs[i] == SessionOutcome::TcpFailed) || (
        session_run(outs)[i] == SessionCommand::ConnectBroker && outs[i] is BrokerRefused),
    ensures
        session_run(outs)[i + 1] == SessionCommand::Pause(ATTEMPT_PAUSE_MS),
{
    lemma_session_run(outs);
}

/// Each lookup of the broker comes right after the pause before an attempt
/// has elapsed.
pub proof fn law_lookup_after_pause(outs: Seq<SessionOutcome>, j: int)
    requires
        session_answered(outs),
        0 <= j <= outs.len(),
        session_run(outs)[j] == SessionCommand::Resolve,
    ensures
        j >= 1,
        session_run(outs)[j - 1] == SessionCommand::Pause(ATTEMPT_PAUSE_MS),
        outs[j - 1] == SessionOutcome::Elapsed,
    decreases j,
{
    lemma_session_run(outs);
    let run = session_run(outs);
    assert(j != 0);
    lemma_session_step_at(outs, j);
    assert(session_answers(run[j - 1], outs[j - 1]));
    assert(run[j - 1] is Pause);
    lemma_pauses_last_attempt_pause(outs, j - 1);
}

/// Every pause the publisher takes lasts the attempt pause.
proof fn lemma_pauses_last_attempt_pause(outs: Seq<SessionOutcome>, j: int)
    requires
        0 <= j <= outs.len(),
        session_run(outs)[j] is Pause,
    ensures
        session_run(outs)[j] == SessionCommand::Pause(ATTEMPT_PAUSE_MS),
    decreases j,
{
    lemma_session_run(outs);
    let run = session_run(outs);
    assert(j != 0);
    lemma_session_step_at(outs, j);
    if run[j - 1] is Pause {
        lemma_pauses_last_attempt_pause(outs, j - 1);
    }
}

/// A successful lookup always leads to a TCP connection at the first address
/// the resolver gave, on the broker's port; it never leads back to a pause,
/// whatever the address.
pub proof fn law_lookup_success_connects_to_first_address(addresses: Vec<Ipv4>)
    requires
        addresses@.len() > 0,
    ensures
        session_next(SessionCommand::Resolve, SessionOutcome::Resolved(addresses))
            == SessionCommand::OpenTcp(addresses@[0], BROKER_PORT),
        !(session_next(SessionCommand::Resolve, SessionOutcome::Resolved(addresses)) is Pause),
{
}

/// An established TCP connection is always followed by the broker
/// handshake, whatever the address and port it goes to.
pub proof fn law_tcp_success_leads_to_handshake(address: Ipv4, port: u16)
    ensures
        session_next(SessionCommand::OpenTcp(address, port), SessionOutcome::TcpConnected)
            == SessionCommand::ConnectBroker,
{
}

/// A failed TCP connection leads back to the pause before a new attempt,
/// whatever the address and port it went to.
pub proof fn law_tcp_failure_pauses(address: Ipv4, port: u16)
    ensures
        session_next(SessionCommand::OpenTcp(address, port), SessionOutcome::TcpFailed)
            == SessionCommand::Pause(ATTEMPT_PAUSE_MS),
{
}

/// Start-up polls: a link that is down is looked at again after the poll
/// interval, a link that is up leads to waiting for an address, a missing
/// address is looked for again after the poll interval, and a held address
/// leads to the pause before the first attempt. Every elapsed wait of the
/// start-up goes back to looking.
pub proof fn law_start_up_polling(link_wait: u64, address_wait: u64)
    ensures
        session_next(SessionCommand::CheckLink, SessionOutcome::Link(false))
            == SessionCommand::AwaitLink(POLL_INTERVAL_MS),
        session_next(SessionCommand::CheckLink, SessionOutcome::Link(true))
            == SessionCommand::CheckAddress,
        session_next(SessionCommand::AwaitLink(link_wait), SessionOutcome::Elapsed)
            == SessionCommand::CheckLink,
        session_next(SessionCommand::CheckAddress, SessionOutcome::Address(false))
            == SessionCommand::AwaitAddress(POLL_INTERVAL_MS),
        session_next(SessionCommand::CheckAddress, SessionOutcome::Address(true))
            == SessionCommand::Pause(ATTEMPT_PAUSE_MS),
        session_next(SessionCommand::AwaitAddress(address_wait), SessionOutcome::Elapsed)
            == SessionCommand::CheckAddress,
{
}

/// An elapsed pause always leads to a lookup; a failed lookup and a refused
/// handshake, whatever the reason code, lead back to the pause; an accepted
/// handshake starts publishing.
pub proof fn law_attempt_steps(pause: u64, code: u8)
    ensures
        session_next(SessionCommand::Pause(pause), SessionOutcome::Elapsed)
            == SessionCommand::Resolve,
        session_next(SessionCommand::Resolve, SessionOutcome::ResolveFailed)
            == SessionCommand::Pause(ATTEMPT_PAUSE_MS),
        session_next(SessionCommand::ConnectBroker, SessionOutcome::BrokerRefused(code))
            == SessionCommand::Pause(ATTEMPT_PAUSE_MS),
        session_next(SessionCommand::ConnectBroker, SessionOutcome::BrokerConnected)
            == SessionCommand::Publish,
{
}

/// In the session, a delivered reading leads to a rest of the publish period,
/// a failed one, whatever the reason code, to publishing again, and an
/// elapsed rest to the next reading.
pub proof fn law_session_steps(rest: u64, code: u8)
    ensures
        session_next(SessionCommand::Publish, SessionOutcome::Published)
            == SessionCommand::Rest(PUBLISH_PERIOD_MS),
        session_next(SessionCommand::Publish, SessionOutcome::PublishFailed(code))
            == SessionCommand::Publish,
        session_next(SessionCommand::Rest(rest), SessionOutcome::Elapsed)
            == SessionCommand::Publish,
{
}

/// An outcome that does not answer the outstanding command leaves it
/// outstanding.
pub proof fn law_stray_outcome_is_ignored(c: SessionCommand, o: SessionOutcome)
    requires
        !session_answers(c, o),
    ensures
        session_next(c, o) == c,
{
}

} // verus!
