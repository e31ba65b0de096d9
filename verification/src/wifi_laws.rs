use vstd::prelude::*;
use crate::settings::WIFI_HOLD_MS;
use crate::wifi::{WifiCommand, WifiOutcome, wifi_answers, wifi_initial, wifi_next};

verus! {

/// The commands the keeper issues when the firmware reports `outs` in turn:
/// the first command, then one more after each outcome.
pub open spec fn wifi_run(outs: Seq<WifiOutcome>) -> Seq<WifiCommand>
    decreases outs.len(),
{
    if outs.len() == 0 {
        seq![wifi_initial()]
    } else {
        let before = wifi_run(outs.drop_last());
        before.push(wifi_next(before.last(), outs.last()))
    }
}

/// Whether every outcome in `outs` answers the command it follows, as it does
/// when the firmware performs each command and reports how it went.
pub open spec fn wifi_answered(outs: Seq<WifiOutcome>) -> bool {
    forall|i: int| 0 <= i < outs.len() ==> wifi_answers(#[trigger] wifi_run(outs)[i], outs[i])
}

/// A run starts with the first command and takes one step per outcome.
pub proof fn lemma_wifi_run(outs: Seq<WifiOutcome>)
    ensures
        wifi_run(outs).len() == outs.len() + 1,
        wifi_run(outs)[0] == wifi_initial(),
        forall|i: int|
            0 <= i < outs.len() ==> #[trigger] wifi_run(outs)[i + 1] == wifi_next(
                wifi_run(outs)[i],
                outs[i],
            ),
    decreases outs.len(),
{
    if outs.len() > 0 {
        let front = outs.drop_last();
        lemma_wifi_run(front);
        let before = wifi_run(front);
        assert forall|i: int| 0 <= i < outs.len() implies #[trigger] wifi_run(outs)[i + 1]
            == wifi_next(wifi_run(outs)[i], outs[i]) by {
            if i < outs.len() - 1 {
                assert(front[i] == outs[i]);
                assert(before[i + 1] == wifi_next(before[i], front[i]));
            }
        }
    }
}

/// The keeper associates only with a controller it knows to be running: in
/// every run, each `Connect` directly follows either a report that the
/// controller runs or the report that it was just started.
pub proof fn law_connect_only_when_running(outs: Seq<WifiOutcome>, j: int)
    requires
        wifi_answered(outs),
        0 <= j <= outs.len(),
        wifi_run(outs)[j] == WifiCommand::Connect,
    ensures
        j >= 1,
        (wifi_run(outs)[j - 1] == WifiCommand::ReadRunning && outs[j - 1] == WifiOutcome::Running(
            Some(true),
        )) || (wifi_run(outs)[j - 1] == WifiCommand::StartController && outs[j - 1]
            == WifiOutcome::ControllerStarted),
{
    lemma_wifi_run(outs);
    let run = wifi_run(outs);
    assert(j != 0);
    let p = j - 1;
    assert(run[p + 1] == wifi_next(run[p], outs[p]));
    assert(wifi_answers(run[j - 1], outs[j - 1]));
}

/// The keeper reconfigures the controller only when it does not know it to
/// be running, and always starts it next.
pub proof fn law_configure_only_when_not_running(outs: Seq<WifiOutcome>, j: int)
    requires
        wifi_answered(outs),
        0 <= j <= outs.len(),
        wifi_run(outs)[j] == WifiCommand::Configure,
    ensures
        j >= 1,
        wifi_run(outs)[j - 1] == WifiCommand::ReadRunning,
        outs[j - 1] != WifiOutcome::Running(Some(true)),
        j < outs.len() ==> wifi_run(outs)[j + 1] == WifiCommand::StartController,
{
    lemma_wifi_run(outs);
    let run = wifi_run(outs);
    assert(j != 0);
    let p = j - 1;
    assert(run[p + 1] == wifi_next(run[p], outs[p]));
    assert(wifi_answers(run[j - 1], outs[j - 1]));
    if j < outs.len() {
        assert(run[j + 1] == wifi_next(run[j], outs[j]));
        assert(wifi_answers(run[j], outs[j]));
    }
}

/// A back-off lasts until its time has elapsed.
proof fn lemma_back_off_ends_by_elapsing(outs: Seq<WifiOutcome>, a: int, b: int)
    requires
        0 <= a < b <= outs.len(),
        wifi_run(outs)[a] == WifiCommand::BackOff(WIFI_HOLD_MS),
        wifi_run(outs)[b] != WifiCommand::BackOff(WIFI_HOLD_MS),
    ensures
        exists|k: int|
            a <= k < b && #[trigger] wifi_run(outs)[k] == WifiCommand::BackOff(WIFI_HOLD_MS)
                && outs[k] == WifiOutcome::Elapsed,
    decreases b - a,
{
    lemma_wifi_run(outs);
    let run = wifi_run(outs);
    assert(run[a + 1] == wifi_next(run[a], outs[a]));
    if outs[a] != WifiOutcome::Elapsed {
        lemma_back_off_ends_by_elapsing(outs, a + 1, b);
    }
}

/// After a failed association the keeper tries again only once the full
/// back-off has elapsed: between a failed `Connect` and the next `Connect`
/// there is a back-off of the hold time whose time elapsed. This holds of
/// every sequence of reports, answered or not.
pub proof fn law_back_off_before_retry(outs: Seq<WifiOutcome>, i: int, j: int)
    requires
        0 <= i < j <= outs.len(),
        wifi_run(outs)[i] == WifiCommand::Connect,
        outs[i] == WifiOutcome::ConnectFailed,
        wifi_run(outs)[j] == WifiCommand::Connect,
    ensures
        wifi_run(outs)[i + 1] == WifiCommand::BackOff(WIFI_HOLD_MS),
        exists|k: int|
            i < k < j && #[trigger] wifi_run(outs)[k] == WifiCommand::BackOff(WIFI_HOLD_MS)
                && outs[k] == WifiOutcome::Elapsed,
{
    lemma_wifi_run(outs);
    let run = wifi_run(outs);
    assert(run[i + 1] == wifi_next(run[i], outs[i]));
    lemma_back_off_ends_by_elapsing(outs, i + 1, j);
}

/// The keeper's answers, whatever the hold times: a connected station is
/// left alone until it disconnects, after which the keeper settles for the
/// hold time; a station that is not connected leads to asking whether the
/// controller runs; a running controller is associated at once, any other
/// answer (not running, or a failed query) leads to configuring it, then to
/// starting it, then to associating; an association leads back to reading the
/// state, and a failed one to a back-off of the hold time.
pub proof fn law_keeper_steps(settle: u64, back_off: u64)
    ensures
        wifi_next(WifiCommand::ReadState, WifiOutcome::State(true)) == WifiCommand::AwaitDisconnect,
        wifi_next(WifiCommand::ReadState, WifiOutcome::State(false)) == WifiCommand::ReadRunning,
        wifi_next(WifiCommand::AwaitDisconnect, WifiOutcome::Disconnected)
            == WifiCommand::SettleAfterDisconnect(WIFI_HOLD_MS),
        wifi_next(WifiCommand::SettleAfterDisconnect(settle), WifiOutcome::Elapsed)
            == WifiCommand::ReadRunning,
        wifi_next(WifiCommand::ReadRunning, WifiOutcome::Running(Some(true))) == WifiCommand::Connect,
        wifi_next(WifiCommand::ReadRunning, WifiOutcome::Running(Some(false)))
            == WifiCommand::Configure,
        wifi_next(WifiCommand::ReadRunning, WifiOutcome::Running(None)) == WifiCommand::Configure,
        wifi_next(WifiCommand::Configure, WifiOutcome::Configured) == WifiCommand::StartController,
        wifi_next(WifiCommand::StartController, WifiOutcome::ControllerStarted)
            == WifiCommand::Connect,
        wifi_next(WifiCommand::Connect, WifiOutcome::Connected) == WifiCommand::ReadState,
        wifi_next(WifiCommand::Connect, WifiOutcome::ConnectFailed) == WifiCommand::BackOff(
            WIFI_HOLD_MS,
        ),
        wifi_next(WifiCommand::BackOff(back_off), WifiOutcome::Elapsed) == WifiCommand::ReadState,
{
}

/// An outcome that does not answer the outstanding command leaves it
/// outstanding.
pub proof fn law_keeper_ignores_stray_outcomes(c: WifiCommand, o: WifiOutcome)
    requires
        !wifi_answers(c, o),
    ensures
        wifi_next(c, o) == c,
{
}

} // verus!
