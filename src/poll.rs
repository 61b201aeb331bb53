//! The poll loop's decisions: what to do on each timer tick or shutdown, and
//! what one fetch outcome does to the gauges.
use vstd::prelude::*;

use crate::gauges::{Gauges, Snapshot};
use crate::info::InviteInfo;

verus! {

/// Why one fetch of the invite endpoint gave no record.
#[derive(Copy, Clone, Debug, PartialEq, Eq, Structural)]
pub enum FetchError {
    /// The request itself failed (connection, timeout, no body).
    Network,
    /// The body did not decode into an invite record.
    Decode,
}

/// Where the poll loop stands: it runs until a shutdown is observed.
#[derive(Copy, Clone, Debug, PartialEq, Eq, Structural)]
pub enum Phase {
    Running,
    Stopped,
}

/// What the poll loop waits for: the next tick, or the shutdown signal.
#[derive(Copy, Clone, Debug, PartialEq, Eq, Structural)]
pub enum Event {
    Tick,
    Shutdown,
}

/// What the loop does next: one fetch and update, or leave the loop.
#[derive(Copy, Clone, Debug, PartialEq, Eq, Structural)]
pub enum Command {
    Fetch,
    Stop,
}

/// What came of one fetch, for the log.
#[derive(Copy, Clone, Debug, PartialEq, Eq, Structural)]
pub enum Report {
    /// The gauges now hold these values.
    Updated(Snapshot),
    /// The gauges were left as they were.
    Failed(FetchError),
}

/// One transition of the poll loop. A stopped loop stays stopped and never
/// fetches again.
pub open spec fn step(p: Phase, e: Event) -> (Phase, Command) {
    match p {
        Phase::Stopped => (Phase::Stopped, Command::Stop),
        Phase::Running => match e {
            Event::Tick => (Phase::Running, Command::Fetch),
            Event::Shutdown => (Phase::Stopped, Command::Stop),
        },
    }
}

/// The phase after a run of events.
pub open spec fn phase_after(p: Phase, events: Seq<Event>) -> Phase
    decreases events.len(),
{
    if events.len() == 0 {
        p
    } else {
        step(phase_after(p, events.drop_last()), events.last()).0
    }
}

/// The command given on the `j`-th of a run of events.
pub open spec fn command_at(p: Phase, events: Seq<Event>, j: int) -> Command {
    step(phase_after(p, events.take(j)), events[j]).1
}

/// The gauge values after one fetch outcome: a record replaces all three, a
/// failure keeps them.
pub open spec fn after_fetch(s: Snapshot, outcome: Result<InviteInfo, FetchError>) -> Snapshot {
    match outcome {
        Ok(info) => Snapshot::of_info(info),
        Err(_) => s,
    }
}

/// The gauge values after a run of fetch outcomes, in order.
pub open spec fn after_fetches(s: Snapshot, outcomes: Seq<Result<InviteInfo, FetchError>>) -> Snapshot
    decreases outcomes.len(),
{
    if outcomes.len() == 0 {
        s
    } else {
        after_fetch(after_fetches(s, outcomes.drop_last()), outcomes.last())
    }
}

/// The poll loop's state.
pub struct PollLoop {
    phase: Phase,
}

impl View for PollLoop {
    type V = Phase;

    closed spec fn view(&self) -> Phase {
        self.phase
    }
}

impl PollLoop {
    /// A loop that has just been spawned.
    pub fn new() -> (r: PollLoop)
        ensures
            r@ == Phase::Running,
    {
        PollLoop { phase: Phase::Running }
    }

    pub fn phase(&self) -> (r: Phase)
        ensures
            r == self@,
    {
        self.phase
    }

    /// Decides what to do on one event: fetch on a tick while running, stop
    /// on shutdown, and stay stopped once stopped.
    pub fn on_event(&mut self, e: Event) -> (c: Command)
        ensures
            (final(self)@, c) == step(old(self)@, e),
    {
        match self.phase {
            Phase::Stopped => Command::Stop,
            Phase::Running => match e {
                Event::Tick => Command::Fetch,
                Event::Shutdown => {
                    self.phase = Phase::Stopped;
                    Command::Stop
                },
            },
        }
    }
}

/// Applies one fetch outcome to the gauges: a record sets all three at once;
/// a failure of either kind leaves them as they were.
pub fn apply_fetch(gauges: &mut Gauges, outcome: Result<InviteInfo, FetchError>) -> (r: Report)
    requires
        old(gauges).wf(),
    ensures
        final(gauges).wf(),
        final(gauges)@ == after_fetch(old(gauges)@, outcome),
        r == (match outcome {
            Ok(info) => Report::Updated(Snapshot::of_info(info)),
            Err(e) => Report::Failed(e),
        }),
{
    match outcome {
        Ok(info) => {
            gauges.update(info);
            Report::Updated(gauges.snapshot())
        },
        Err(e) => Report::Failed(e),
    }
}

/// After any non-empty run of successful fetches, the gauges hold exactly the
/// three values of the last record fetched, whatever they held before.
pub proof fn lemma_last_record_wins(start: Snapshot, infos: Seq<InviteInfo>)
    requires
        infos.len() > 0,
    ensures
        after_fetches(start, infos.map_values(|i: InviteInfo| Ok::<InviteInfo, FetchError>(i)))
            == Snapshot::of_info(infos.last()),
{
    let outcomes = infos.map_values(|i: InviteInfo| Ok::<InviteInfo, FetchError>(i));
    assert(outcomes.last() == Ok::<InviteInfo, FetchError>(infos.last()));
}

/// Failed fetches, of either kind and in any number, leave the gauges as the
/// fetches before them left them.
pub proof fn lemma_failures_keep_values(
    start: Snapshot,
    outcomes: Seq<Result<InviteInfo, FetchError>>,
    failures: Seq<FetchError>,
)
    ensures
        after_fetches(
            start,
            outcomes + failures.map_values(|e: FetchError| Err::<InviteInfo, FetchError>(e)),
        ) == after_fetches(start, outcomes),
    decreases failures.len(),
{
    let errs = failures.map_values(|e: FetchError| Err::<InviteInfo, FetchError>(e));
    if failures.len() == 0 {
        assert(outcomes + errs =~= outcomes);
    } else {
        let fewer = failures.drop_last();
        let fewer_errs = fewer.map_values(|e: FetchError| Err::<InviteInfo, FetchError>(e));
        lemma_failures_keep_values(start, outcomes, fewer);
        assert((outcomes + errs).drop_last() =~= outcomes + fewer_errs);
        assert((outcomes + errs).last() == Err::<InviteInfo, FetchError>(failures.last()));
    }
}

/// Where the `k`-th fetch gave a record and every later one failed, the gauges
/// hold that record's three values.
pub proof fn lemma_last_success_stays(
    start: Snapshot,
    outcomes: Seq<Result<InviteInfo, FetchError>>,
    k: int,
)
    requires
        0 <= k < outcomes.len(),
        outcomes[k] is Ok,
        forall|j: int| k < j < outcomes.len() ==> (#[trigger] outcomes[j]) is Err,
    ensures
        after_fetches(start, outcomes) == Snapshot::of_info(outcomes[k]->Ok_0),
    decreases outcomes.len(),
{
    if outcomes.len() > k + 1 {
        let shorter = outcomes.drop_last();
        assert forall|j: int| k < j < shorter.len() implies (#[trigger] shorter[j]) is Err by {
            assert(shorter[j] == outcomes[j]);
        }
        lemma_last_success_stays(start, shorter, k);
        assert(outcomes[outcomes.len() - 1] is Err);
    }
}

/// Once a shutdown has been observed, the loop is stopped at every later event
/// and commands no further fetch.
pub proof fn lemma_no_fetch_after_shutdown(p: Phase, events: Seq<Event>, i: int, j: int)
    requires
        0 <= i < j < events.len(),
        events[i] == Event::Shutdown,
    ensures
        phase_after(p, events.take(j)) == Phase::Stopped,
        command_at(p, events, j) == Command::Stop,
{
    lemma_stopped_after(p, events, i, j);
}

proof fn lemma_stopped_after(p: Phase, events: Seq<Event>, i: int, k: int)
    requires
        0 <= i < k <= events.len(),
        events[i] == Event::Shutdown,
    ensures
        phase_after(p, events.take(k)) == Phase::Stopped,
    decreases k - i,
{
    let prefix = events.take(k);
    assert(prefix.drop_last() =~= events.take(k - 1));
    assert(prefix.last() == events[k - 1]);
    if k > i + 1 {
        lemma_stopped_after(p, events, i, k - 1);
    }
}

} // verus!
