//! The order of startup and what each outcome along it decides: a failed
//! configuration load, address parse or bind aborts startup; a failed
//! notification is only reported, and the listener starts regardless.
use vstd::prelude::*;

verus! {

/// Where startup stands.
#[derive(Debug, Clone, Copy, PartialEq, Eq, Structural)]
pub enum Phase {
    /// Reading and parsing the configuration.
    LoadConfig,
    /// Parsing `listen_ip:port` as a socket address.
    ParseAddress,
    /// Sending the startup notification.
    Notify,
    /// Binding the listener.
    Bind,
    /// The listener is bound and serves requests.
    Serving,
    /// Startup failed; the listener never starts.
    Aborted,
}

/// The phase that follows `p` when its work succeeded (`ok`) or failed.
pub open spec fn advance(p: Phase, ok: bool) -> Phase {
    match p {
        Phase::LoadConfig => if ok { Phase::ParseAddress } else { Phase::Aborted },
        Phase::ParseAddress => if ok { Phase::Notify } else { Phase::Aborted },
        Phase::Notify => Phase::Bind,
        Phase::Bind => if ok { Phase::Serving } else { Phase::Aborted },
        Phase::Serving => Phase::Serving,
        Phase::Aborted => Phase::Aborted,
    }
}

/// The phase reached from `p` after the outcomes of the steps, in order.
pub open spec fn run_from(p: Phase, outcomes: Seq<bool>) -> Phase
    decreases outcomes.len(),
{
    if outcomes.len() == 0 {
        p
    } else {
        run_from(advance(p, outcomes[0]), outcomes.drop_first())
    }
}

/// The phase after `phase`, given whether its work succeeded.
pub fn next_phase(phase: Phase, ok: bool) -> (r: Phase)
    ensures
        r == advance(phase, ok),
{
    match phase {
        Phase::LoadConfig => if ok { Phase::ParseAddress } else { Phase::Aborted },
        Phase::ParseAddress => if ok { Phase::Notify } else { Phase::Aborted },
        Phase::Notify => Phase::Bind,
        Phase::Bind => if ok { Phase::Serving } else { Phase::Aborted },
        Phase::Serving => Phase::Serving,
        Phase::Aborted => Phase::Aborted,
    }
}

/// Once aborted, startup stays aborted whatever comes after.
pub proof fn lemma_aborted_stays(outcomes: Seq<bool>)
    ensures
        run_from(Phase::Aborted, outcomes) == Phase::Aborted,
    decreases outcomes.len(),
{
    if outcomes.len() > 0 {
        lemma_aborted_stays(outcomes.drop_first());
    }
}

/// An address that does not parse fails startup: whatever the other
/// outcomes, the listener is never started.
pub proof fn lemma_invalid_address_aborts(outcomes: Seq<bool>)
    requires
        outcomes.len() >= 2,
        !outcomes[1],
    ensures
        run_from(Phase::LoadConfig, outcomes) == Phase::Aborted,
{
    let after_load = outcomes.drop_first();
    assert(after_load[0] == outcomes[1]);
    lemma_aborted_stays(after_load.drop_first());
    if outcomes[0] {
        assert(run_from(Phase::ParseAddress, after_load) == run_from(Phase::Aborted, after_load.drop_first()));
    } else {
        lemma_aborted_stays(after_load);
    }
}

/// A configuration that loads, an address that parses and a bind that
/// succeeds give a serving listener, whether or not the notification went
/// through.
pub proof fn lemma_valid_address_serves(notified: bool)
    ensures
        run_from(Phase::LoadConfig, seq![true, true, notified, true]) == Phase::Serving,
{
    let s = seq![true, true, notified, true];
    assert(s.drop_first() =~= seq![true, notified, true]);
    assert(s.drop_first().drop_first() =~= seq![notified, true]);
    assert(s.drop_first().drop_first().drop_first() =~= seq![true]);
    assert(s.drop_first().drop_first().drop_first().drop_first() =~= Seq::<bool>::empty());
    reveal_with_fuel(run_from, 5);
}

} // verus!
