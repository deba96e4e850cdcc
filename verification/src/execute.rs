//! One execution: turning a probe's result into a `Status` and recording
//! it in the registry, plus the pure outcome decision of an HTTP probe.

use vstd::prelude::*;

use crate::checks::{CheckKind, CheckView, Config, Status, StatusView};
use crate::decimal::{decimal_digits, to_decimal};

verus! {

/// The status an execution records for a probe result observed after
/// `elapsed` milliseconds.
pub open spec fn outcome(result: Result<(), Seq<char>>, elapsed: u64) -> StatusView {
    match result {
        Result::Ok(u) => StatusView::Success(elapsed),
        Result::Err(reason) => StatusView::Fail(elapsed, reason),
    }
}

/// Wraps a probe's result as the status to record: a probe's own failure
/// is not an execution failure, only the recorded outcome.
pub fn status_from_result(result: Result<(), String>, elapsed: u64) -> (st: Status)
    ensures
        st@ == outcome(
            match result {
                Result::Ok(u) => Result::Ok(u),
                Result::Err(reason) => Result::Err(reason@),
            },
            elapsed,
        ),
{
    match result {
        Result::Ok(()) => Status::Success(elapsed),
        Result::Err(reason) => Status::Fail(elapsed, reason),
    }
}

/// The reason recorded when an HTTP probe reaches the server but sees a
/// status code other than the expected one.
pub open spec fn http_mismatch_message(expected: u16, actual: u16) -> Seq<char> {
    "Expected "@ + decimal_digits(expected as nat) + ", got status "@ + decimal_digits(
        actual as nat,
    )
}

/// The outcome of an HTTP probe that reached the server: success exactly
/// when the response's status code equals the expected one; otherwise a
/// failure whose reason names both codes.
pub fn http_outcome(expected: u16, actual: u16) -> (r: Result<(), String>)
    ensures
        r is Ok <==> actual == expected,
        r matches Err(m) ==> m@ == http_mismatch_message(expected, actual),
{
    if actual == expected {
        Result::Ok(())
    } else {
        let mut m = String::from_str("Expected ");
        m.append(to_decimal(expected).as_str());
        m.append(", got status ");
        m.append(to_decimal(actual).as_str());
        Result::Err(m)
    }
}

/// The registry after the status write of one completed execution: the
/// named check's `last_status` is replaced wholesale, every other check
/// and every other field is untouched.
pub open spec fn recorded(s: Seq<CheckView>, name: Seq<char>, st: StatusView) -> Seq<CheckView> {
    s.map_values(
        |c: CheckView|
            if c.name == name {
                CheckView { last_status: Option::Some(st), ..c }
            } else {
                c
            },
    )
}

/// Writes the status of a completed execution back into the registry.
/// Returns whether the named check was found; `false` reports a violated
/// lifecycle invariant (checks are never removed), never a silent no-op.
pub fn record_status(config: &mut Config, name: &String, status: Status) -> (found: bool)
    ensures
        final(config)@ == recorded(old(config)@, name@, status@),
        found == exists|k: int| 0 <= k < old(config)@.len() && old(config)@[k].name == name@,
{
    let ghost orig: Seq<CheckView> = config@;
    let ghost target: Seq<CheckView> = recorded(orig, name@, status@);
    let mut found = false;
    let mut i: usize = 0;
    while i < config.checks.len()
        invariant
            i <= orig.len(),
            config.checks@.len() == orig.len(),
            target == recorded(orig, name@, status@),
            forall|k: int| i <= k < orig.len() ==> config@[k] == #[trigger] orig[k],
            forall|k: int| 0 <= k < i ==> config@[k] == #[trigger] target[k],
            found == exists|k: int| 0 <= k < i && #[trigger] orig[k].name == name@,
        decreases orig.len() - i,
    {
        if config.checks[i].name == *name {
            config.checks[i].last_status = Option::Some(status.clone());
            found = true;
        }
        proof {
            assert(config@[i as int] == target[i as int]);
        }
        i = i + 1;
    }
    proof {
        assert(config@ =~= target);
        assert(final(config)@ =~= config@);
    }
    found
}

/// Completes one execution: builds the status from the probe's result and
/// the elapsed time, and records it. Returns whether the named check was
/// found in the registry.
pub fn complete_run(
    config: &mut Config,
    name: &String,
    result: Result<(), String>,
    elapsed: u64,
) -> (found: bool)
    ensures
        final(config)@ == recorded(
            old(config)@,
            name@,
            outcome(
                match result {
                    Result::Ok(u) => Result::Ok(u),
                    Result::Err(reason) => Result::Err(reason@),
                },
                elapsed,
            ),
        ),
        found == exists|k: int| 0 <= k < old(config)@.len() && old(config)@[k].name == name@,
{
    let status = status_from_result(result, elapsed);
    record_status(config, name, status)
}

/// Looks a check's probe kind up by name: the short, lock-scoped read an
/// execution makes before its probe begins.
pub fn kind_of(config: &Config, name: &String) -> (r: Option<CheckKind>)
    ensures
        match r {
            Option::Some(kind) => exists|k: int|
                0 <= k < config@.len() && config@[k].name == name@ && kind@ == config@[k].kind,
            Option::None => forall|k: int| 0 <= k < config@.len() ==> config@[k].name != name@,
        },
{
    let mut i: usize = 0;
    while i < config.checks.len()
        invariant
            i <= config@.len(),
            forall|k: int| 0 <= k < i ==> #[trigger] config@[k].name != name@,
        decreases config@.len() - i,
    {
        if config.checks[i].name == *name {
            let kind = config.checks[i].kind.clone();
            proof {
                assert(config@[i as int].name == name@ && kind@ == config@[i as int].kind);
            }
            return Option::Some(kind);
        }
        i = i + 1;
    }
    Option::None
}

/// However two status writes for the same check are ordered, the check's
/// final `last_status` is exactly the later write's status, whole — one
/// of the two written statuses, never a mixture of their fields — and no
/// other check is touched by either write.
pub proof fn lemma_status_write_atomic(
    s: Seq<CheckView>,
    name: Seq<char>,
    first: StatusView,
    second: StatusView,
)
    ensures
        forall|k: int|
            0 <= k < s.len() && #[trigger] s[k].name == name ==> recorded(
                recorded(s, name, first),
                name,
                second,
            )[k] == (CheckView { last_status: Option::Some(second), ..s[k] }),
        forall|k: int|
            0 <= k < s.len() && #[trigger] s[k].name != name ==> recorded(
                recorded(s, name, first),
                name,
                second,
            )[k] == (s[k]),
{
}

} // verus!
