use vstd::prelude::*;

use crate::config::policy::{
    condition_outcome, spec_governs, spec_name_or_index, DeletePolicy,
};
use crate::config::Instance;
use crate::Torrent;

verus! {

/// Per-policy aggregate over one tick's fetched torrent list.
#[derive(Debug)]
pub struct PolicyTickStats {
    /// The policy's reporting label: its name or its position.
    pub label: String,
    /// How many fetched torrents the policy governs.
    pub seen: usize,
    /// Cumulative size in bytes of the governed torrents, saturated at
    /// the counter's maximum.
    pub size_total: u64,
    /// How many governed torrents currently qualify for deletion.
    pub deleted: usize,
}

/// One size observation: a governed torrent's size, keyed by the
/// position of the policy that governs it.
#[derive(Clone, Copy, Debug, PartialEq, Eq, Structural)]
pub struct SizeObservation {
    pub policy: usize,
    pub size: usize,
}

/// Everything one tick's pure evaluation decides: per-policy aggregates,
/// one size observation per governed (torrent, policy) pair, and the two
/// sets of torrent hashes scheduled for removal, split by whether the
/// matching policy also deletes the downloaded data.
#[derive(Debug)]
pub struct TickEvaluation {
    pub stats: Vec<PolicyTickStats>,
    pub observations: Vec<SizeObservation>,
    pub delete_with_data: Vec<String>,
    pub delete_without_data: Vec<String>,
}

/// Addition on the size counter: saturates at `u64::MAX`.
pub open spec fn sat_add_u64(a: int, b: int) -> int {
    if a + b > u64::MAX {
        u64::MAX as int
    } else {
        a + b
    }
}

/// How many torrents of `ts` the policy `p` governs.
pub open spec fn governed_count(ts: Seq<Torrent>, p: DeletePolicy) -> int
    decreases ts.len(),
{
    if ts.len() == 0 {
        0
    } else {
        governed_count(ts.drop_last(), p) + if spec_governs(p.precondition, ts.last()) {
            1int
        } else {
            0int
        }
    }
}

/// The cumulative size of the governed torrents of `ts`, saturating.
pub open spec fn governed_size(ts: Seq<Torrent>, p: DeletePolicy) -> int
    decreases ts.len(),
{
    if ts.len() == 0 {
        0
    } else {
        let rest = governed_size(ts.drop_last(), p);
        if spec_governs(p.precondition, ts.last()) {
            sat_add_u64(rest, ts.last().total_size as int)
        } else {
            rest
        }
    }
}

/// Whether policy `p` both governs `t` and finds it qualified for
/// deletion at instant `now`.
pub open spec fn is_deletion(p: DeletePolicy, t: Torrent, now: i64) -> bool {
    spec_governs(p.precondition, t) && !(condition_outcome(p.match_when, t, now) is NoMatch)
}

/// How many torrents of `ts` the policy `p` schedules for deletion.
pub open spec fn deletion_count(ts: Seq<Torrent>, p: DeletePolicy, now: i64) -> int
    decreases ts.len(),
{
    if ts.len() == 0 {
        0
    } else {
        deletion_count(ts.drop_last(), p, now) + if is_deletion(p, ts.last(), now) {
            1int
        } else {
            0int
        }
    }
}

/// The hashes (one per policy of `ps`, in policy order) under which the
/// single torrent `t` is scheduled for removal with the given data flag.
pub open spec fn torrent_hash_marks(
    t: Torrent,
    ps: Seq<DeletePolicy>,
    with_data: bool,
    now: i64,
) -> Seq<String>
    decreases ps.len(),
{
    if ps.len() == 0 {
        Seq::empty()
    } else {
        torrent_hash_marks(t, ps.drop_last(), with_data, now) + if is_deletion(
            ps.last(),
            t,
            now,
        ) && ps.last().delete_data == with_data {
            seq![t.hash]
        } else {
            Seq::empty()
        }
    }
}

/// The hashes scheduled for removal with the given data flag, over all
/// torrents (outer order) and policies (inner order). A torrent matched
/// by several policies appears once per match; the removal operation is
/// idempotent per hash.
pub open spec fn deletion_hashes(
    ts: Seq<Torrent>,
    ps: Seq<DeletePolicy>,
    with_data: bool,
    now: i64,
) -> Seq<String>
    decreases ts.len(),
{
    if ts.len() == 0 {
        Seq::empty()
    } else {
        deletion_hashes(ts.drop_last(), ps, with_data, now) + torrent_hash_marks(
            ts.last(),
            ps,
            with_data,
            now,
        )
    }
}

/// The size observations that the single torrent `t` contributes: one per
/// policy of `ps` that governs it.
pub open spec fn torrent_observations(t: Torrent, ps: Seq<DeletePolicy>) -> Seq<SizeObservation>
    decreases ps.len(),
{
    if ps.len() == 0 {
        Seq::empty()
    } else {
        torrent_observations(t, ps.drop_last()) + if spec_governs(ps.last().precondition, t) {
            seq![SizeObservation { policy: (ps.len() - 1) as usize, size: t.total_size }]
        } else {
            Seq::empty()
        }
    }
}

/// All size observations of one tick, torrents outer, policies inner.
pub open spec fn size_observations(ts: Seq<Torrent>, ps: Seq<DeletePolicy>) -> Seq<SizeObservation>
    decreases ts.len(),
{
    if ts.len() == 0 {
        Seq::empty()
    } else {
        size_observations(ts.drop_last(), ps) + torrent_observations(ts.last(), ps)
    }
}

/// What one per-policy aggregate must hold for policy `p` at position
/// `index`, over the fetched torrents `ts` at instant `now`.
pub open spec fn stats_ok(
    st: PolicyTickStats,
    ts: Seq<Torrent>,
    p: DeletePolicy,
    index: int,
    now: i64,
) -> bool {
    &&& st.label@ == spec_name_or_index(p, index)
    &&& st.seen == governed_count(ts, p)
    &&& st.size_total == governed_size(ts, p)
    &&& st.deleted == deletion_count(ts, p, now)
}

/// The full contract of one tick's evaluation.
pub open spec fn tick_eval_ok(
    e: TickEvaluation,
    ts: Seq<Torrent>,
    ps: Seq<DeletePolicy>,
    now: i64,
) -> bool {
    &&& e.stats@.len() == ps.len()
    &&& forall|j: int| 0 <= j < ps.len() ==> stats_ok(#[trigger] e.stats@[j], ts, ps[j], j, now)
    &&& e.observations@ == size_observations(ts, ps)
    &&& e.delete_with_data@ == deletion_hashes(ts, ps, true, now)
    &&& e.delete_without_data@ == deletion_hashes(ts, ps, false, now)
}

proof fn lemma_take_step<A>(s: Seq<A>, i: int)
    requires
        0 <= i < s.len(),
    ensures
        s.take(i + 1).drop_last() == s.take(i),
        s.take(i + 1).last() == s[i],
{
    assert(s.take(i + 1).drop_last() =~= s.take(i));
}

proof fn lemma_governed_count_bound(ts: Seq<Torrent>, p: DeletePolicy)
    ensures
        0 <= governed_count(ts, p) <= ts.len(),
    decreases ts.len(),
{
    if ts.len() > 0 {
        lemma_governed_count_bound(ts.drop_last(), p);
    }
}

proof fn lemma_deletion_count_bound(ts: Seq<Torrent>, p: DeletePolicy, now: i64)
    ensures
        0 <= deletion_count(ts, p, now) <= ts.len(),
    decreases ts.len(),
{
    if ts.len() > 0 {
        lemma_deletion_count_bound(ts.drop_last(), p, now);
    }
}

/// Evaluates one tick: resolves every fetched torrent against every
/// policy, in configuration order, at instant `now` (seconds since the
/// epoch). Pure: no external calls, deterministic for given inputs.
pub fn evaluate_tick_at(torrents: &Vec<Torrent>, policies: &Vec<DeletePolicy>, now: i64) -> (r:
    TickEvaluation)
    ensures
        tick_eval_ok(r, torrents@, policies@, now),
{
    let ghost ts = torrents@;
    let ghost ps = policies@;

    let mut stats: Vec<PolicyTickStats> = Vec::new();
    let mut j: usize = 0;
    while j < policies.len()
        invariant
            0 <= j <= ps.len(),
            ts == torrents@,
            ps == policies@,
            stats@.len() == j,
            forall|k: int| 0 <= k < j ==> stats_ok(#[trigger] stats@[k], ts, ps[k], k, now),
        decreases ps.len() - j,
    {
        let p = &policies[j];
        let mut seen: usize = 0;
        let mut size_total: u64 = 0;
        let mut deleted: usize = 0;
        let mut i: usize = 0;
        while i < torrents.len()
            invariant
                0 <= i <= ts.len(),
                ts == torrents@,
                ps == policies@,
                0 <= j < ps.len(),
                *p == ps[j as int],
                seen == governed_count(ts.take(i as int), *p),
                size_total == governed_size(ts.take(i as int), *p),
                deleted == deletion_count(ts.take(i as int), *p, now),
            decreases ts.len() - i,
        {
            let t = &torrents[i];
            proof {
                lemma_take_step(ts, i as int);
                lemma_governed_count_bound(ts.take(i as int), *p);
                lemma_deletion_count_bound(ts.take(i as int), *p, now);
                assert(ts.take(i as int).len() == i);
            }
            if let Some(a) = p.applicable(t) {
                seen = seen + 1;
                size_total = size_total.saturating_add(t.total_size as u64);
                if a.matches(now).is_match() {
                    deleted = deleted + 1;
                }
            }
            i = i + 1;
        }
        proof {
            assert(ts.take(ts.len() as int) =~= ts);
        }
        let label = p.name_or_index(j);
        stats.push(PolicyTickStats { label, seen, size_total, deleted });
        j = j + 1;
    }

    let mut observations: Vec<SizeObservation> = Vec::new();
    let mut delete_with_data: Vec<String> = Vec::new();
    let mut delete_without_data: Vec<String> = Vec::new();
    let mut i: usize = 0;
    while i < torrents.len()
        invariant
            0 <= i <= ts.len(),
            ts == torrents@,
            ps == policies@,
            observations@ == size_observations(ts.take(i as int), ps),
            delete_with_data@ == deletion_hashes(ts.take(i as int), ps, true, now),
            delete_without_data@ == deletion_hashes(ts.take(i as int), ps, false, now),
        decreases ts.len() - i,
    {
        let t = &torrents[i];
        proof {
            assert(observations@ =~= size_observations(ts.take(i as int), ps)
                + torrent_observations(*t, ps.take(0)));
            assert(delete_with_data@ =~= deletion_hashes(ts.take(i as int), ps, true, now)
                + torrent_hash_marks(*t, ps.take(0), true, now));
            assert(delete_without_data@ =~= deletion_hashes(ts.take(i as int), ps, false, now)
                + torrent_hash_marks(*t, ps.take(0), false, now));
        }
        let mut j: usize = 0;
        while j < policies.len()
            invariant
                0 <= j <= ps.len(),
                ts == torrents@,
                ps == policies@,
                0 <= i < ts.len(),
                *t == ts[i as int],
                observations@ == size_observations(ts.take(i as int), ps) + torrent_observations(
                    *t,
                    ps.take(j as int),
                ),
                delete_with_data@ == deletion_hashes(ts.take(i as int), ps, true, now)
                    + torrent_hash_marks(*t, ps.take(j as int), true, now),
                delete_without_data@ == deletion_hashes(ts.take(i as int), ps, false, now)
                    + torrent_hash_marks(*t, ps.take(j as int), false, now),
            decreases ps.len() - j,
        {
            let p = &policies[j];
            proof {
                lemma_take_step(ps, j as int);
            }
            if let Some(a) = p.applicable(t) {
                observations.push(SizeObservation { policy: j, size: t.total_size });
                if a.matches(now).is_match() {
                    let h = t.hash.clone();
                    if p.delete_data {
                        delete_with_data.push(h);
                    } else {
                        delete_without_data.push(h);
                    }
                }
            }
            proof {
                assert(observations@ =~= size_observations(ts.take(i as int), ps)
                    + torrent_observations(*t, ps.take(j as int + 1)));
                assert(delete_with_data@ =~= deletion_hashes(ts.take(i as int), ps, true, now)
                    + torrent_hash_marks(*t, ps.take(j as int + 1), true, now));
                assert(delete_without_data@ =~= deletion_hashes(ts.take(i as int), ps, false, now)
                    + torrent_hash_marks(*t, ps.take(j as int + 1), false, now));
            }
            j = j + 1;
        }
        proof {
            lemma_take_step(ts, i as int);
            assert(ps.take(ps.len() as int) =~= ps);
        }
        i = i + 1;
    }
    proof {
        assert(ts.take(ts.len() as int) =~= ts);
    }
    TickEvaluation { stats, observations, delete_with_data, delete_without_data }
}

/// One removal call to the torrent repository: the hashes to remove and
/// whether their downloaded data is removed from disk too.
#[derive(Debug)]
pub struct RemoveCall {
    pub hashes: Vec<String>,
    pub delete_data: bool,
}

/// Where a poller stands in its tick cycle.
#[derive(Debug)]
pub enum PollerPhase {
    /// Waiting for the next scheduled tick.
    Idle,
    /// A fetch of the torrent list is outstanding.
    Fetching,
    /// Removal calls are being issued; `remaining` is the call still to
    /// go once the outstanding one completes.
    Acting { remaining: Option<RemoveCall> },
}

/// What the environment reports to a poller.
#[derive(Debug)]
pub enum PollerEvent {
    /// The poll interval elapsed.
    TickDue,
    /// The torrent list was fetched.
    FetchCompleted { torrents: Vec<Torrent> },
    /// The fetch failed; the tick is abandoned.
    FetchFailed,
    /// The outstanding removal call succeeded.
    RemoveCompleted,
    /// The outstanding removal call failed; the tick is abandoned and the
    /// remaining removal, if any, is skipped.
    RemoveFailed,
}

/// What a poller asks the environment to do next.
#[derive(Debug)]
pub enum PollerAction {
    /// Fetch the full torrent list from the torrent repository.
    Fetch,
    /// The tick was evaluated: record the evaluation, then issue the
    /// removal if one is present. No removal present means the tick is
    /// already complete — a dry run, or nothing matched.
    Evaluated { evaluation: TickEvaluation, remove: Option<RemoveCall> },
    /// Issue this removal call.
    Remove(RemoveCall),
    /// The tick is over; on failure it was abandoned where it stood.
    /// Wait for the next tick: a failed tick never stops the loop.
    TickDone { success: bool },
    /// The event does not apply to the current phase.
    Ignored,
}

/// The control state of one instance's polling loop. Each poller owns its
/// instance, phase and counters exclusively; nothing here is shared, so
/// no tick or failure of one instance can reach another.
#[derive(Debug)]
pub struct Poller {
    pub instance: Instance,
    /// Whether destructive actions are performed (false: dry run).
    pub take_action: bool,
    pub phase: PollerPhase,
    /// Ticks that ran to completion, saturating.
    pub ticks_succeeded: u64,
    /// Ticks abandoned by a fetch or removal failure, saturating.
    pub ticks_failed: u64,
}

/// A counter increment that saturates instead of wrapping.
pub open spec fn sat_inc(x: u64) -> u64 {
    if x == u64::MAX {
        x
    } else {
        (x + 1) as u64
    }
}

/// The poller after an abandoned tick: back to `Idle` — the loop goes on
/// at the next interval — with only its own failure counter bumped.
pub open spec fn spec_tick_failed(p: Poller) -> Poller {
    Poller { phase: PollerPhase::Idle, ticks_failed: sat_inc(p.ticks_failed), ..p }
}

/// The poller after a completed tick.
pub open spec fn spec_tick_succeeded(p: Poller) -> Poller {
    Poller { phase: PollerPhase::Idle, ticks_succeeded: sat_inc(p.ticks_succeeded), ..p }
}

/// Which events a poller consumes in each phase.
pub open spec fn event_applies(phase: PollerPhase, event: PollerEvent) -> bool {
    match phase {
        PollerPhase::Idle => event is TickDue,
        PollerPhase::Fetching => event is FetchCompleted || event is FetchFailed,
        PollerPhase::Acting { .. } => event is RemoveCompleted || event is RemoveFailed,
    }
}

/// Relates a poller in `Fetching` phase to its state and output once the
/// fetched list `torrents` has been evaluated at instant `now`: the
/// action carries the evaluation; with destructive action enabled and a
/// non-empty delete set, it also carries the first removal call, and the
/// second one, if any, waits in the `Acting` phase.
pub open spec fn fetch_outcome_at(
    p: Poller,
    torrents: Vec<Torrent>,
    now: i64,
    p2: Poller,
    r: PollerAction,
) -> bool {
    let ps = p.instance.policies@;
    let wd = deletion_hashes(torrents@, ps, true, now);
    let wo = deletion_hashes(torrents@, ps, false, now);
    &&& r matches PollerAction::Evaluated { evaluation, remove } && {
        &&& tick_eval_ok(evaluation, torrents@, ps, now)
        &&& p2.instance == p.instance
        &&& p2.take_action == p.take_action
        &&& if !p.take_action || (wd.len() == 0 && wo.len() == 0) {
            &&& remove is None
            &&& p2 == spec_tick_succeeded(p)
        } else {
            &&& p2.ticks_succeeded == p.ticks_succeeded
            &&& p2.ticks_failed == p.ticks_failed
            &&& if wd.len() > 0 {
                &&& remove matches Some(c) && c.delete_data == true && c.hashes@ == wd
                &&& p2.phase matches PollerPhase::Acting { remaining } && (if wo.len() > 0 {
                    remaining matches Some(c2) && c2.delete_data == false && c2.hashes@ == wo
                } else {
                    remaining is None
                })
            } else {
                &&& remove matches Some(c) && c.delete_data == false && c.hashes@ == wo
                &&& p2.phase matches PollerPhase::Acting { remaining } && remaining is None
            }
        }
    }
}

/// Relies on chrono::Utc::now: the current instant, in seconds since the
/// Unix epoch. Nothing further can be promised of a clock reading.
#[verifier::external_body]
fn now_seconds() -> i64 {
    chrono::Utc::now().timestamp()
}

/// Copies a list of hashes into a removal call of its own.
fn clone_strings(v: &Vec<String>) -> (r: Vec<String>)
    ensures
        r@ == v@,
{
    let mut r: Vec<String> = Vec::new();
    let mut i: usize = 0;
    while i < v.len()
        invariant
            0 <= i <= v@.len(),
            r@ == v@.take(i as int),
        decreases v@.len() - i,
    {
        r.push(v[i].clone());
        proof {
            assert(r@ =~= v@.take(i as int + 1));
        }
        i = i + 1;
    }
    proof {
        assert(v@.take(v@.len() as int) =~= v@);
    }
    r
}

impl Poller {
    /// One poller per configured instance. An `Instance` is already fully
    /// validated, so construction cannot fail and a poller starts idle.
    pub fn new(instance: Instance, take_action: bool) -> (r: Self)
        ensures
            r.instance == instance,
            r.take_action == take_action,
            r.phase is Idle,
            r.ticks_succeeded == 0,
            r.ticks_failed == 0,
    {
        Poller {
            instance,
            take_action,
            phase: PollerPhase::Idle,
            ticks_succeeded: 0,
            ticks_failed: 0,
        }
    }

    fn bump_failed(&mut self)
        ensures
            *final(self) == spec_tick_failed(*old(self)),
    {
        self.phase = PollerPhase::Idle;
        self.ticks_failed = if self.ticks_failed == u64::MAX {
            u64::MAX
        } else {
            self.ticks_failed + 1
        };
    }

    fn bump_succeeded(&mut self)
        ensures
            *final(self) == spec_tick_succeeded(*old(self)),
    {
        self.phase = PollerPhase::Idle;
        self.ticks_succeeded = if self.ticks_succeeded == u64::MAX {
            u64::MAX
        } else {
            self.ticks_succeeded + 1
        };
    }

    /// The `Evaluating` and early `Acting` work of one tick, at a fixed
    /// instant: evaluate the fetched list, then line up the removal calls
    /// that the configured mode allows.
    fn finish_fetch(&mut self, torrents: Vec<Torrent>, now: i64) -> (r: PollerAction)
        requires
            old(self).phase is Fetching,
        ensures
            fetch_outcome_at(*old(self), torrents, now, *final(self), r),
    {
        let evaluation = evaluate_tick_at(&torrents, &self.instance.policies, now);
        let any_with = evaluation.delete_with_data.len() > 0;
        let any_without = evaluation.delete_without_data.len() > 0;
        if !self.take_action || (!any_with && !any_without) {
            self.bump_succeeded();
            return PollerAction::Evaluated { evaluation, remove: None };
        }
        if any_with {
            let second = if any_without {
                Some(
                    RemoveCall {
                        hashes: clone_strings(&evaluation.delete_without_data),
                        delete_data: false,
                    },
                )
            } else {
                None
            };
            let first = RemoveCall {
                hashes: clone_strings(&evaluation.delete_with_data),
                delete_data: true,
            };
            self.phase = PollerPhase::Acting { remaining: second };
            PollerAction::Evaluated { evaluation, remove: Some(first) }
        } else {
            let first = RemoveCall {
                hashes: clone_strings(&evaluation.delete_without_data),
                delete_data: false,
            };
            self.phase = PollerPhase::Acting { remaining: None };
            PollerAction::Evaluated { evaluation, remove: Some(first) }
        }
    }

    /// Drives the tick state machine: consumes one event from the
    /// environment and decides the next action. The decision is a
    /// function of this poller's own state and the event alone; an event
    /// that does not fit the current phase changes nothing.
    pub fn step(&mut self, event: PollerEvent) -> (r: PollerAction)
        ensures
            !event_applies(old(self).phase, event) ==> (*final(self) == *old(self)
                && r is Ignored),
            (old(self).phase is Idle && event is TickDue) ==> (*final(self) == (Poller {
                phase: PollerPhase::Fetching,
                ..*old(self)
            }) && r is Fetch),
            (old(self).phase is Fetching && event is FetchFailed) ==> (*final(self)
                == spec_tick_failed(*old(self)) && r == (PollerAction::TickDone {
                success: false,
            })),
            old(self).phase is Fetching ==> (event matches PollerEvent::FetchCompleted {
                torrents,
            } ==> exists|now: i64| fetch_outcome_at(*old(self), torrents, now, *final(self), r)),
            event is RemoveCompleted ==> (old(self).phase matches PollerPhase::Acting {
                remaining,
            } ==> (match remaining {
                Some(c) => *final(self) == (Poller {
                    phase: PollerPhase::Acting { remaining: None },
                    ..*old(self)
                }) && r == PollerAction::Remove(c),
                None => *final(self) == spec_tick_succeeded(*old(self)) && r
                    == (PollerAction::TickDone { success: true }),
            })),
            (old(self).phase matches PollerPhase::Acting { .. } && event is RemoveFailed) ==> (
            *final(self) == spec_tick_failed(*old(self)) && r == (PollerAction::TickDone {
                success: false,
            })),
    {
        match event {
            PollerEvent::TickDue => {
                if matches!(self.phase, PollerPhase::Idle) {
                    self.phase = PollerPhase::Fetching;
                    PollerAction::Fetch
                } else {
                    PollerAction::Ignored
                }
            },
            PollerEvent::FetchCompleted { torrents } => {
                if matches!(self.phase, PollerPhase::Fetching) {
                    let now = now_seconds();
                    self.finish_fetch(torrents, now)
                } else {
                    PollerAction::Ignored
                }
            },
            PollerEvent::FetchFailed => {
                if matches!(self.phase, PollerPhase::Fetching) {
                    self.bump_failed();
                    PollerAction::TickDone { success: false }
                } else {
                    PollerAction::Ignored
                }
            },
            PollerEvent::RemoveCompleted => {
                let mut ph = PollerPhase::Idle;
                core::mem::swap(&mut ph, &mut self.phase);
                match ph {
                    PollerPhase::Acting { remaining: Some(c) } => {
                        self.phase = PollerPhase::Acting { remaining: None };
                        PollerAction::Remove(c)
                    },
                    PollerPhase::Acting { remaining: None } => {
                        self.bump_succeeded();
                        PollerAction::TickDone { success: true }
                    },
                    other => {
                        self.phase = other;
                        PollerAction::Ignored
                    },
                }
            },
            PollerEvent::RemoveFailed => {
                if matches!(self.phase, PollerPhase::Acting { .. }) {
                    self.bump_failed();
                    PollerAction::TickDone { success: false }
                } else {
                    PollerAction::Ignored
                }
            },
        }
    }
}

/// Law: one poller's fetch failure is isolated. The failed tick only
/// returns that poller to `Idle` with its own failure counter bumped: its
/// instance, policies and success count are untouched, and the next due
/// tick fetches again — the loop is never halted. `step` reads and writes
/// nothing but the poller it is called on, so the counters of every other
/// instance's poller are untouched by construction.
pub proof fn lemma_fetch_failure_isolated(p: Poller)
    ensures
        spec_tick_failed(p).phase is Idle,
        spec_tick_failed(p).instance == p.instance,
        spec_tick_failed(p).take_action == p.take_action,
        spec_tick_failed(p).ticks_succeeded == p.ticks_succeeded,
        event_applies(spec_tick_failed(p).phase, PollerEvent::TickDue),
{
}

} // verus!
