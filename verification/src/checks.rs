//! The data model: check definitions, their runtime state, and the
//! recorded outcome of a completed probe.

use vstd::prelude::*;

verus! {

/// Outcome of one completed probe execution: success with the elapsed
/// time, or failure with the elapsed time and a human-readable reason.
/// Elapsed times and intervals are in milliseconds throughout.
#[derive(Debug)]
pub enum Status {
    Success(u64),
    Fail(u64, String),
}

/// Mathematical value of a `Status`: the reason as a character sequence.
pub enum StatusView {
    Success(u64),
    Fail(u64, Seq<char>),
}

impl View for Status {
    type V = StatusView;

    open spec fn view(&self) -> StatusView {
        match self {
            Status::Success(d) => StatusView::Success(*d),
            Status::Fail(d, reason) => StatusView::Fail(*d, reason@),
        }
    }
}

impl Clone for Status {
    fn clone(&self) -> (res: Self)
        ensures
            res@ == self@,
    {
        match self {
            Status::Success(d) => Status::Success(*d),
            Status::Fail(d, reason) => Status::Fail(*d, reason.clone()),
        }
    }
}

/// The probe a check performs, with its kind-specific parameters.
#[derive(Debug)]
pub enum CheckKind {
    Http { url: String, status: u16 },
    Tcp { host: String, port: u16 },
    Ping { host: String },
}

/// Mathematical value of a `CheckKind`.
pub enum CheckKindView {
    Http { url: Seq<char>, status: u16 },
    Tcp { host: Seq<char>, port: u16 },
    Ping { host: Seq<char> },
}

impl View for CheckKind {
    type V = CheckKindView;

    open spec fn view(&self) -> CheckKindView {
        match self {
            CheckKind::Http { url, status } => CheckKindView::Http { url: url@, status: *status },
            CheckKind::Tcp { host, port } => CheckKindView::Tcp { host: host@, port: *port },
            CheckKind::Ping { host } => CheckKindView::Ping { host: host@ },
        }
    }
}

impl Clone for CheckKind {
    fn clone(&self) -> (res: Self)
        ensures
            res@ == self@,
    {
        match self {
            CheckKind::Http { url, status } => CheckKind::Http {
                url: url.clone(),
                status: *status,
            },
            CheckKind::Tcp { host, port } => CheckKind::Tcp { host: host.clone(), port: *port },
            CheckKind::Ping { host } => CheckKind::Ping { host: host.clone() },
        }
    }
}

/// A named monitoring target together with its runtime state: when it was
/// last dispatched and the outcome of its most recently completed probe.
#[derive(Debug)]
pub struct Check {
    pub name: String,
    pub interval: u64,
    pub kind: CheckKind,
    pub last_run: Option<u64>,
    pub last_status: Option<Status>,
}

/// Mathematical value of a `Check`.
pub struct CheckView {
    pub name: Seq<char>,
    pub interval: u64,
    pub kind: CheckKindView,
    pub last_run: Option<u64>,
    pub last_status: Option<StatusView>,
}

impl View for Check {
    type V = CheckView;

    open spec fn view(&self) -> CheckView {
        CheckView {
            name: self.name@,
            interval: self.interval,
            kind: self.kind@,
            last_run: self.last_run,
            last_status: match self.last_status {
                Option::None => Option::None,
                Option::Some(s) => Option::Some(s@),
            },
        }
    }
}

impl Clone for Check {
    fn clone(&self) -> (res: Self)
        ensures
            res@ == self@,
    {
        Check {
            name: self.name.clone(),
            interval: self.interval,
            kind: self.kind.clone(),
            last_run: self.last_run,
            last_status: match &self.last_status {
                Option::None => Option::None,
                Option::Some(s) => Option::Some(s.clone()),
            },
        }
    }
}

/// The registry: every declared check with its runtime state. Checks are
/// created once at startup and never added or removed afterwards; only
/// `last_run` and `last_status` mutate.
#[derive(Debug)]
pub struct Config {
    pub checks: Vec<Check>,
}

impl View for Config {
    type V = Seq<CheckView>;

    open spec fn view(&self) -> Seq<CheckView> {
        self.checks@.map_values(|c: Check| c@)
    }
}

impl Clone for Config {
    /// An atomic snapshot read of the whole registry.
    fn clone(&self) -> (res: Self)
        ensures
            res@ == self@,
    {
        let mut snapshot: Vec<Check> = Vec::new();
        let mut i: usize = 0;
        while i < self.checks.len()
            invariant
                i <= self.checks@.len(),
                snapshot@.len() == i,
                forall|k: int| 0 <= k < i ==> snapshot@[k]@ == self.checks@[k]@,
            decreases self.checks@.len() - i,
        {
            snapshot.push(self.checks[i].clone());
            i = i + 1;
        }
        let res = Config { checks: snapshot };
        proof {
            assert(res@ =~= self@);
        }
        res
    }
}

/// The status code an HTTP check expects when none is configured.
pub fn default_status() -> (r: u16)
    ensures
        r == 200,
{
    200
}

} // verus!
