use vstd::prelude::*;

verus! {

/// Milliseconds in one day: the unit in which a visit's age is decayed.
pub const DAY_IN_MILLI_SEC: u64 = 86_400_000;

/// Age of a visit at a reference time, in milliseconds; a visit recorded
/// after the reference time counts as fresh.
pub open spec fn age_of(reference: u64, visit: u64) -> nat {
    if reference >= visit {
        (reference - visit) as nat
    } else {
        0
    }
}

/// The ages of all visits of a history, position by position.
pub open spec fn ages_of(reference: u64, visits: Seq<u64>) -> Seq<u64> {
    visits.map_values(|v: u64| age_of(reference, v) as u64)
}

/// Clamped age of one visit at `reference`.
pub fn visit_age(reference: u64, visit: u64) -> (r: u64)
    ensures
        r == age_of(reference, visit),
{
    if reference >= visit {
        reference - visit
    } else {
        0
    }
}

/// Ages of every visit of `visits` at `reference`, in the same order. Each
/// age contributes one decay weight to the score.
pub fn visit_ages(reference: u64, visits: &Vec<u64>) -> (r: Vec<u64>)
    ensures
        r@ == ages_of(reference, visits@),
{
    let mut r: Vec<u64> = Vec::new();
    let mut i: usize = 0;
    while i < visits.len()
        invariant
            i <= visits@.len(),
            r@ == ages_of(reference, visits@.take(i as int)),
        decreases visits.len() - i,
    {
        let a = visit_age(reference, visits[i]);
        r.push(a);
        assert(visits@.take(i as int + 1) == visits@.take(i as int).push(visits@[i as int]));
        i = i + 1;
    }
    assert(visits@.take(visits@.len() as int) == visits@);
    r
}

/// Default bound on the number of visits retained per identifier.
pub const DEFAULT_MAX_VISIT_LOG_NUM: usize = 20;

/// How many of the oldest entries of a history of `len` visits fall outside
/// a log bounded by `max`.
pub open spec fn evict_count(len: nat, max: nat) -> nat {
    if len > max {
        (len - max) as nat
    } else {
        0
    }
}

/// What one new visit of an identifier does to the store.
pub struct UpdatePlan {
    /// No visit of the identifier was stored before: its score row is
    /// inserted rather than updated.
    pub is_first_visit: bool,
    /// The prior visits followed by the new one: the history the new score
    /// is computed from.
    pub history: Vec<u64>,
    /// The oldest entries of `history`, by position, that no longer fit in
    /// the log: always stored visits, never the new one. The store deletes
    /// exactly these rows, not every row that shares their timestamps.
    pub evict: Vec<u64>,
    /// The age of each visit of `history` at the new visit: the new score
    /// sums one decay weight per age.
    pub ages: Vec<u64>,
}

impl UpdatePlan {
    /// The visit log that remains once the plan is written: the new visit
    /// is stored and the evicted entries, the oldest of `history` by
    /// position, are deleted.
    pub open spec fn retained(&self) -> Seq<u64> {
        self.history@.skip(self.evict@.len() as int)
    }
}

/// Plans the write for a visit at `latest`, given the identifier's stored
/// visits `prior` (oldest first) and the log bound `max_visit_log_num`.
pub fn plan_update(prior: &Vec<u64>, latest: u64, max_visit_log_num: usize) -> (p: UpdatePlan)
    requires
        prior@.len() < usize::MAX,
        max_visit_log_num >= 1,
    ensures
        p.is_first_visit == (prior@.len() == 0),
        p.history@ == prior@.push(latest),
        p.evict@ == p.history@.take(
            evict_count(p.history@.len(), max_visit_log_num as nat) as int,
        ),
        p.evict@.len() <= prior@.len(),
        p.ages@ == ages_of(latest, p.history@),
        p.retained() == log_after_visit(prior@, latest, max_visit_log_num as nat),
{
    let is_first_visit = prior.len() == 0;
    let mut history: Vec<u64> = Vec::new();
    let mut i: usize = 0;
    while i < prior.len()
        invariant
            i <= prior@.len(),
            history@ == prior@.take(i as int),
        decreases prior.len() - i,
    {
        history.push(prior[i]);
        assert(prior@.take(i as int + 1) == prior@.take(i as int).push(prior@[i as int]));
        i = i + 1;
    }
    assert(prior@.take(prior@.len() as int) == prior@);
    history.push(latest);
    let n_evict: usize = if history.len() > max_visit_log_num {
        history.len() - max_visit_log_num
    } else {
        0
    };
    let mut evict: Vec<u64> = Vec::new();
    let mut j: usize = 0;
    while j < n_evict
        invariant
            n_evict <= history@.len(),
            j <= n_evict,
            evict@ == history@.take(j as int),
        decreases n_evict - j,
    {
        evict.push(history[j]);
        assert(history@.take(j as int + 1) == history@.take(j as int).push(history@[j as int]));
        j = j + 1;
    }
    let ages = visit_ages(latest, &history);
    UpdatePlan { is_first_visit, history, evict, ages }
}

/// The visit log an identifier keeps after a visit at `latest`, when `log`
/// was stored before: the new visit is appended, then the oldest entries
/// beyond the bound `max` are dropped by position.
pub open spec fn log_after_visit(log: Seq<u64>, latest: u64, max: nat) -> Seq<u64> {
    let full = log.push(latest);
    full.skip(evict_count(full.len(), max) as int)
}

/// However many visits an identifier had stored, the log it keeps after one
/// more visit holds at most `max` visits, so every sequence of visits leaves
/// it within the bound.
pub proof fn lemma_log_stays_bounded(log: Seq<u64>, latest: u64, max: nat)
    requires
        max >= 1,
    ensures
        log_after_visit(log, latest, max).len() <= max,
{
}

/// A visit is never evicted by the write that records it: afterwards the
/// identifier has at least one visit, the newest entry is that visit, and
/// the rest is a tail of what was stored. So an identifier with a score row
/// always has visits.
pub proof fn lemma_visit_is_kept(log: Seq<u64>, latest: u64, max: nat)
    requires
        max >= 1,
    ensures
        log_after_visit(log, latest, max).len() >= 1,
        log_after_visit(log, latest, max).last() == latest,
        log_after_visit(log, latest, max).drop_last() == log.skip(
            evict_count(log.len() + 1, max) as int,
        ),
{
    let full = log.push(latest);
    let k = evict_count(full.len(), max) as int;
    assert(full.skip(k).drop_last() =~= log.skip(k));
}

/// The first visit of an identifier is planned as an insert of a one-visit
/// history whose only age is zero, with nothing evicted: its score is the
/// weight of one fresh visit, and its log holds that visit alone.
pub proof fn lemma_first_visit(latest: u64, max: nat, p: UpdatePlan)
    requires
        max >= 1,
        p.is_first_visit,
        p.history@ == seq![latest],
        p.evict@ == p.history@.take(evict_count(p.history@.len(), max) as int),
        p.ages@ == ages_of(latest, p.history@),
    ensures
        p.evict@.len() == 0,
        p.ages@ == seq![0u64],
        p.retained() == seq![latest],
        log_after_visit(Seq::empty(), latest, max) == seq![latest],
{
    assert(p.ages@ =~= seq![0u64]);
    assert(p.history@.skip(0) =~= p.history@);
    assert(seq![latest].skip(0) =~= seq![latest]);
}

/// A history whose visits all happened at the reference time has every
/// age zero: each visit weighs as a fresh one.
pub proof fn lemma_ages_at_visit_time(t: u64, visits: Seq<u64>)
    requires
        forall|i: int| 0 <= i < visits.len() ==> #[trigger] visits[i] == t,
    ensures
        ages_of(t, visits).len() == visits.len(),
        forall|i: int| 0 <= i < visits.len() ==> #[trigger] ages_of(t, visits)[i] == 0,
{
}

/// A single past visit grows strictly older as the reference time moves on.
pub proof fn lemma_age_grows(t0: u64, t1: u64, t2: u64)
    requires
        t0 < t1,
        t1 < t2,
    ensures
        ages_of(t1, seq![t0])[0] < ages_of(t2, seq![t0])[0],
{
}

} // verus!
