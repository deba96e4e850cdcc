//! The scheduling decision: which checks are due on a pass, and the pass
//! itself, which marks every due check as started and says which checks
//! to dispatch. All times are milliseconds on one monotonic clock.

use vstd::prelude::*;

use crate::checks::{CheckView, Config};

verus! {

/// A check is due when it has never run, or when at least `interval` has
/// elapsed since its recorded `last_run`.
pub open spec fn is_due(last_run: Option<u64>, interval: u64, now: u64) -> bool {
    match last_run {
        Option::None => true,
        Option::Some(t) => now >= t + interval,
    }
}

/// A check as it stands right after being marked as started at `now`.
pub open spec fn marked(c: CheckView, now: u64) -> CheckView {
    CheckView { last_run: Option::Some(now), ..c }
}

/// The names of the due checks, in registry order.
pub open spec fn due_names(s: Seq<CheckView>, now: u64) -> Seq<Seq<char>>
    decreases s.len(),
{
    if s.len() == 0 {
        Seq::empty()
    } else {
        let rest = due_names(s.drop_last(), now);
        if is_due(s.last().last_run, s.last().interval, now) {
            rest.push(s.last().name)
        } else {
            rest
        }
    }
}

/// Decides whether one check is due at `now`.
pub fn due(last_run: &Option<u64>, interval: u64, now: u64) -> (r: bool)
    ensures
        r == is_due(*last_run, interval, now),
{
    match last_run {
        Option::None => true,
        Option::Some(t) => now >= *t && now - *t >= interval,
    }
}

/// One scheduling pass: every check that is due at `now` has its
/// `last_run` set to `now` before this function returns, and its name is
/// in the returned dispatch list; every other check is left untouched.
/// The caller dispatches one execution task per returned name, so each
/// due check is marked as started strictly before its probe can begin.
pub fn think(config: &mut Config, now: u64) -> (dispatched: Vec<String>)
    ensures
        final(config)@.len() == old(config)@.len(),
        forall|k: int|
            0 <= k < old(config)@.len() && is_due(
                old(config)@[k].last_run,
                old(config)@[k].interval,
                now,
            ) ==> final(config)@[k] == marked(old(config)@[k], now),
        forall|k: int|
            0 <= k < old(config)@.len() && !is_due(
                old(config)@[k].last_run,
                old(config)@[k].interval,
                now,
            ) ==> final(config)@[k] == old(config)@[k],
        dispatched@.map_values(|n: String| n@) == due_names(old(config)@, now),
{
    let ghost orig: Seq<CheckView> = config@;
    let mut dispatched: Vec<String> = Vec::new();
    let mut i: usize = 0;
    while i < config.checks.len()
        invariant
            i <= orig.len(),
            config.checks@.len() == orig.len(),
            forall|k: int| i <= k < orig.len() ==> config@[k] == #[trigger] orig[k],
            forall|k: int|
                0 <= k < i && is_due(#[trigger] orig[k].last_run, orig[k].interval, now)
                    ==> config@[k] == marked(orig[k], now),
            forall|k: int|
                0 <= k < i && !is_due(#[trigger] orig[k].last_run, orig[k].interval, now)
                    ==> config@[k] == orig[k],
            dispatched@.map_values(|n: String| n@) =~= due_names(orig.take(i as int), now),
        decreases orig.len() - i,
    {
        proof {
            assert(orig.take(i as int + 1).drop_last() =~= orig.take(i as int));
        }
        if due(&config.checks[i].last_run, config.checks[i].interval, now) {
            let name = config.checks[i].name.clone();
            config.checks[i].last_run = Option::Some(now);
            proof {
                assert(config@[i as int] == marked(orig[i as int], now));
            }
            dispatched.push(name);
        }
        i = i + 1;
    }
    proof {
        assert(orig.take(orig.len() as int) =~= orig);
        assert(final(config)@ =~= config@);
    }
    dispatched
}

/// A check that has never run is due on the first pass that observes it.
pub proof fn lemma_first_pass_due(interval: u64, now: u64)
    ensures
        is_due(Option::None, interval, now),
{
}

/// Once `last_run` is set, the check is due only when at least `interval`
/// has elapsed since that value — never sooner.
pub proof fn lemma_due_only_after_interval(last_run: u64, interval: u64, now: u64)
    ensures
        is_due(Option::Some(last_run), interval, now) <==> now >= last_run + interval,
{
}

/// A check marked as started at `now` is not due again at any instant
/// strictly before `now + interval`: even a probe that outlives its
/// interval cannot make the same due period dispatch twice.
pub proof fn lemma_no_redispatch(c: CheckView, now: u64, later: u64)
    requires
        later < now + c.interval,
    ensures
        !is_due(marked(c, now).last_run, marked(c, now).interval, later),
{
}

/// Two checks marked on the same pass run each at its own cadence: at any
/// instant when the faster one's interval has elapsed but the slower
/// one's has not, exactly the faster one is due again.
pub proof fn lemma_independent_cadence(t: u64, fast: u64, slow: u64, now: u64)
    requires
        t + fast <= now < t + slow,
    ensures
        is_due(Option::Some(t), fast, now),
        !is_due(Option::Some(t), slow, now),
{
}

} // verus!
