//! The lease-based elector: classifying a server-side `Lease` object and
//! deciding, from the lease and the clock, what to write back.
//!
//! The decisions are pure: the surrounding runtime fetches the lease,
//! calls [`Elector::try_acquire_step`] or [`Elector::release_step`], commits
//! the returned spec with optimistic concurrency, and sleeps until the
//! instants these decisions name. While another identity holds an unexpired
//! lease the acquire decision is always the conflict, never a write: two
//! electors sharing a lease therefore never both see themselves as holder
//! within one lease duration, given the server's compare-and-swap on
//! `resourceVersion`.

use vstd::prelude::*;

verus! {

use crate::strutil::str_eq;

/// One microsecond-precision instant, as microseconds since the epoch.
pub type Micros = i64;

/// What this library reads from and writes to a `Lease` object's spec.
#[derive(Debug, Clone, PartialEq)]
pub struct LeaseSpec {
    /// The identity of the current holder, if any.
    pub holder_identity: Option<String>,
    /// How long the lease is valid after a renewal, in seconds.
    pub lease_duration_seconds: Option<i32>,
    /// When the current holder first acquired the lease.
    pub acquire_time: Option<Micros>,
    /// When the holder last renewed the lease.
    pub renew_time: Option<Micros>,
    /// How many times the lease changed hands.
    pub lease_transitions: Option<i32>,
}

impl LeaseSpec {
    /// A lease spec with nothing set, as a fresh server object carries.
    pub fn empty() -> (r: LeaseSpec)
        ensures
            r.holder_identity is None,
            r.lease_duration_seconds is None,
            r.acquire_time is None,
            r.renew_time is None,
            r.lease_transitions is None,
    {
        LeaseSpec {
            holder_identity: None,
            lease_duration_seconds: None,
            acquire_time: None,
            renew_time: None,
            lease_transitions: None,
        }
    }

    /// Whether the derived instants fit the microsecond clock: the renewal
    /// and expiry instants computed from `renew_time` and
    /// `lease_duration_seconds` stay within `i64`.
    pub open spec fn times_bounded(self) -> bool {
        match (self.renew_time, self.lease_duration_seconds) {
            (Some(rt), Some(d)) => i64::MIN <= rt + d * 1_000_000 <= i64::MAX,
            _ => true,
        }
    }
}

/// When the holder should renew: halfway into the lease duration after the
/// last renewal.
pub open spec fn spec_renew_at(rt: Micros, d: i32) -> int {
    rt + d * 500_000
}

/// When a lease held by another expires: a full duration after the last
/// renewal.
pub open spec fn spec_expires_at(rt: Micros, d: i32) -> int {
    rt + d * 1_000_000
}

/// The recorded number of hand-overs, zero when unset.
pub open spec fn spec_transitions(lease: LeaseSpec) -> int {
    match lease.lease_transitions {
        Some(t) => t as int,
        None => 0,
    }
}

/// How a lease stands relative to one elector's identity.
#[derive(Debug, PartialEq)]
pub enum LeaseState {
    /// No holder is recorded.
    Unheld,
    /// Another identity holds it.
    HeldByOther {
        /// Who holds it.
        holder: String,
        /// When their hold expires, when the lease carries the times.
        expires_at: Option<Micros>,
    },
    /// This elector's identity holds it.
    HeldBySelf {
        /// When to renew, when the lease carries the times.
        renew_at: Option<Micros>,
    },
}

/// Why acquiring the lease failed.
#[derive(Debug, PartialEq)]
pub enum AcquireError {
    /// Watching the lease failed.
    Watch(crate::watcher::Error),
    /// Fetching or creating the lease failed; carries the transport message.
    Get(String),
    /// Committing the updated lease failed; carries the transport message.
    Commit(String),
}

/// Why one acquire attempt did not take the lease.
#[derive(Debug, PartialEq)]
pub enum TryAcquireError {
    /// The attempt itself failed.
    Acquire(AcquireError),
    /// Another identity holds the lease until `expires_at`.
    Conflict {
        /// Who holds it.
        holder: String,
        /// When their hold expires.
        expires_at: Micros,
    },
}

/// Why releasing the lease failed.
#[derive(Debug, PartialEq)]
pub enum ReleaseError {
    /// Fetching the lease failed; carries the transport message.
    Get(String),
    /// Committing the cleared lease failed; carries the transport message.
    Commit(String),
    /// The lease was stolen: another identity holds it now.
    AlreadyStolen {
        /// Who holds it.
        holder: String,
    },
}

/// Why the renew loop stopped.
#[derive(Debug, PartialEq)]
pub enum RenewError {
    /// Watching the lease failed.
    Watch(crate::watcher::Error),
    /// Re-acquiring on renewal failed.
    Acquire(TryAcquireError),
}

/// Why `run` failed, naming the phase.
#[derive(Debug, PartialEq)]
pub enum RunError {
    /// Acquiring the lease failed.
    Acquire(AcquireError),
    /// Renewing the lease failed while the task ran.
    Renew(RenewError),
    /// Releasing the lease failed.
    Release(ReleaseError),
}

/// What one acquire attempt decides.
#[derive(Debug, PartialEq)]
pub enum TryAcquireStep {
    /// Another identity holds the lease until `expires_at`: sleep until then
    /// and retry.
    Conflict {
        /// Who holds it.
        holder: String,
        /// When their hold expires.
        expires_at: Micros,
    },
    /// Commit this spec, with optimistic concurrency on the lease's
    /// `resourceVersion`.
    Commit(LeaseSpec),
}

/// What one release attempt decides.
#[derive(Debug, PartialEq)]
pub enum ReleaseStep {
    /// Nobody holds the lease: nothing to write.
    Unheld,
    /// Another identity holds it now: report the theft.
    AlreadyStolen {
        /// Who holds it.
        holder: String,
    },
    /// Commit this cleared spec.
    Commit(LeaseSpec),
}

/// One elector: the lease it campaigns for, the identity it writes as the
/// holder, and the duration it requests.
#[derive(Debug, Clone)]
pub struct Elector {
    /// The name of the lease object.
    pub name: String,
    /// The identity this elector claims the lease under.
    pub identity: String,
    /// The lease duration it writes, in seconds.
    pub lease_duration_secs: i32,
}

impl Elector {
    /// An elector for the named lease under the given identity.
    pub fn new(lease: &str, instance: &str, lease_duration_secs: i32) -> (r: Elector)
        ensures
            r.name@ == lease@,
            r.identity@ == instance@,
            r.lease_duration_secs == lease_duration_secs,
    {
        Elector {
            name: lease.to_owned(),
            identity: instance.to_owned(),
            lease_duration_secs,
        }
    }

    /// How a lease spec stands relative to this elector: unheld, held by
    /// another until its expiry, or held by this identity with its renewal
    /// instant.
    pub open spec fn spec_state(self, lease: LeaseSpec) -> LeaseState {
        match lease.holder_identity {
            None => LeaseState::Unheld,
            Some(holder) => {
                if holder@ == self.identity@ {
                    LeaseState::HeldBySelf {
                        renew_at: match (lease.renew_time, lease.lease_duration_seconds) {
                            (Some(rt), Some(d)) => Some(spec_renew_at(rt, d) as i64),
                            _ => None,
                        },
                    }
                } else {
                    LeaseState::HeldByOther {
                        holder,
                        expires_at: match (lease.renew_time, lease.lease_duration_seconds) {
                            (Some(rt), Some(d)) => Some(spec_expires_at(rt, d) as i64),
                            _ => None,
                        },
                    }
                }
            },
        }
    }

    /// Classifies the lease relative to this elector's identity.
    pub fn state(&self, lease: &LeaseSpec) -> (r: LeaseState)
        requires
            lease.times_bounded(),
        ensures
            r == self.spec_state(*lease),
    {
        match &lease.holder_identity {
            None => LeaseState::Unheld,
            Some(holder) => {
                let times = match (&lease.lease_duration_seconds, &lease.renew_time) {
                    (Some(d), Some(rt)) => {
                        let d64: i64 = *d as i64;
                        proof {
                            assert(*rt + d64 * 500_000 <= i64::MAX && i64::MIN <= *rt + d64
                                * 500_000) by (nonlinear_arith)
                                requires
                                    i64::MIN <= *rt + d64 * 1_000_000 <= i64::MAX,
                                    -0x8000_0000 <= d64 <= 0x7fff_ffff,
                                    i64::MIN <= *rt <= i64::MAX,
                            ;
                        }
                        Some((*rt + d64 * 500_000, *rt + d64 * 1_000_000))
                    },
                    _ => None,
                };
                if str_eq(holder.as_str(), self.identity.as_str()) {
                    proof {
                        assert(holder@ == self.identity@);
                    }
                    LeaseState::HeldBySelf {
                        renew_at: match times {
                            Some((renew_at, _)) => Some(renew_at),
                            None => None,
                        },
                    }
                } else {
                    LeaseState::HeldByOther {
                        holder: holder.clone(),
                        expires_at: match times {
                            Some((_, expires_at)) => Some(expires_at),
                            None => None,
                        },
                    }
                }
            },
        }
    }

    /// What the spec committed by an acquire attempt must hold: this
    /// identity as holder, renewed at `now` for the configured duration;
    /// unchanged acquisition data while the lease was already held by this
    /// identity, and otherwise an acquisition at `now` with the transition
    /// count one higher.
    pub open spec fn spec_commits(self, lease: LeaseSpec, now: Micros, r: TryAcquireStep) -> bool {
        &&& r matches TryAcquireStep::Commit(new)
        &&& new.holder_identity matches Some(h) && h@ == self.identity@
        &&& new.renew_time == Some(now)
        &&& new.lease_duration_seconds == Some(self.lease_duration_secs)
        &&& if self.spec_state(lease) is HeldBySelf {
            &&& new.acquire_time == lease.acquire_time
            &&& new.lease_transitions == lease.lease_transitions
            &&& new.holder_identity == lease.holder_identity
        } else {
            &&& new.acquire_time == Some(now)
            &&& new.lease_transitions matches Some(nt) && nt == 1 + spec_transitions(lease)
        }
    }

    /// Decides one acquire attempt at instant `now`. While another identity
    /// holds the lease and its hold has not expired, the decision is the
    /// conflict — never a write, so a live holder is never usurped. In every
    /// other case the decision is the spec to commit: this identity as
    /// holder, renewed now, for the configured duration; and when the lease
    /// was not already held by this identity, the acquisition time is now
    /// and the transition count moves up by one. A lease whose
    /// `holder_identity` is unset is taken on the first attempt.
    pub fn try_acquire_step(&self, lease: &LeaseSpec, now: Micros) -> (r: TryAcquireStep)
        requires
            lease.times_bounded(),
            spec_transitions(*lease) < i32::MAX,
        ensures
            match self.spec_state(*lease) {
                LeaseState::HeldByOther { holder, expires_at } => match expires_at {
                    Some(e) => {
                        if e > now {
                            r == (TryAcquireStep::Conflict { holder, expires_at: e })
                        } else {
                            self.spec_commits(*lease, now, r)
                        }
                    },
                    None => self.spec_commits(*lease, now, r),
                },
                _ => self.spec_commits(*lease, now, r),
            },
    {
        let state = self.state(lease);
        match state {
            LeaseState::HeldByOther { holder, expires_at: Some(expires_at) } => {
                if expires_at > now {
                    return TryAcquireStep::Conflict { holder, expires_at };
                }
            },
            _ => {},
        }
        let held_by_self = match &lease.holder_identity {
            Some(holder) => str_eq(holder.as_str(), self.identity.as_str()),
            None => false,
        };
        if held_by_self {
            TryAcquireStep::Commit(
                LeaseSpec {
                    holder_identity: lease.holder_identity.clone(),
                    lease_duration_seconds: Some(self.lease_duration_secs),
                    acquire_time: lease.acquire_time,
                    renew_time: Some(now),
                    lease_transitions: lease.lease_transitions,
                },
            )
        } else {
            let transitions = match lease.lease_transitions {
                Some(t) => t,
                None => 0,
            };
            TryAcquireStep::Commit(
                LeaseSpec {
                    holder_identity: Some(self.identity.clone()),
                    lease_duration_seconds: Some(self.lease_duration_secs),
                    acquire_time: Some(now),
                    renew_time: Some(now),
                    lease_transitions: Some(transitions + 1),
                },
            )
        }
    }

    /// Decides the release: nothing to write when nobody holds the lease,
    /// the theft reported when another identity holds it, and otherwise the
    /// cleared spec to commit — no holder, no times, no duration, one more
    /// transition.
    pub fn release_step(&self, lease: &LeaseSpec) -> (r: ReleaseStep)
        requires
            lease.times_bounded(),
            spec_transitions(*lease) < i32::MAX,
        ensures
            match self.spec_state(*lease) {
                LeaseState::Unheld => r is Unheld,
                LeaseState::HeldByOther { holder, .. } => r == (ReleaseStep::AlreadyStolen {
                    holder,
                }),
                LeaseState::HeldBySelf { .. } => {
                    &&& r matches ReleaseStep::Commit(new)
                    &&& new.holder_identity is None
                    &&& new.acquire_time is None
                    &&& new.renew_time is None
                    &&& new.lease_duration_seconds is None
                    &&& new.lease_transitions matches Some(nt) && nt == 1 + spec_transitions(
                        *lease,
                    )
                },
            },
    {
        match self.state(lease) {
            LeaseState::Unheld => ReleaseStep::Unheld,
            LeaseState::HeldByOther { holder, .. } => ReleaseStep::AlreadyStolen { holder },
            LeaseState::HeldBySelf { .. } => {
                let transitions = match lease.lease_transitions {
                    Some(t) => t,
                    None => 0,
                };
                ReleaseStep::Commit(
                    LeaseSpec {
                        holder_identity: None,
                        lease_duration_seconds: None,
                        acquire_time: None,
                        renew_time: None,
                        lease_transitions: Some(transitions + 1),
                    },
                )
            },
        }
    }

    /// When the renew loop should wake to re-acquire: the renewal instant
    /// while this identity holds the lease with its times set, immediately
    /// otherwise.
    pub fn renew_wait(&self, lease: &LeaseSpec) -> (r: Option<Micros>)
        requires
            lease.times_bounded(),
        ensures
            match self.spec_state(*lease) {
                LeaseState::HeldBySelf { renew_at } => r == renew_at,
                _ => r is None,
            },
    {
        match self.state(lease) {
            LeaseState::HeldBySelf { renew_at } => renew_at,
            _ => None,
        }
    }
}

/// Law: one lease value never stands as `HeldBySelf` for two electors of
/// different identities — the holder a lease records is at most one, so two
/// electors sharing a lease never both observe themselves as its holder at
/// one instant.
pub proof fn lemma_at_most_one_holder(a: Elector, b: Elector, lease: LeaseSpec)
    requires
        a.identity@ != b.identity@,
    ensures
        !(a.spec_state(lease) is HeldBySelf && b.spec_state(lease) is HeldBySelf),
{
}

} // verus!
