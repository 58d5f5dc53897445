//! A formal model of a well-behaved container runtime, and proofs that the
//! lifecycle machine run against it gives the promised guarantees:
//! idempotent `start` and `stop`, rejection of a mismatched pinned digest,
//! and no container left behind after `start` followed by `stop`.
//!
//! The model tracks only what the machine can observe: daemon liveness,
//! whether a container is registered under the managed name (the runtime
//! enforces at most one per name), whether the image is available locally,
//! and the repository digests it carries. Each [`ModelRuntime::respond`]
//! clause states what the runtime API documents for that call.

use vstd::prelude::*;
use vstd::string::*;
use crate::bitcoind::{
    spec_join, spec_listing_has, Action, Bitcoind, Event, Outcome, Phase, STOP_POLL_LIMIT,
};
use crate::error::BitcoindError;
use crate::text::{occurs_at, spec_contains_sub};

verus! {

/// Observable state of the modelled runtime.
pub struct ModelRuntime {
    /// The daemon answers its liveness probe.
    pub daemon_up: bool,
    /// A container is registered under the managed name.
    pub container_present: bool,
    /// The configured image is available locally.
    pub image_present: bool,
    /// The repository digests the image carries once pulled.
    pub image_digests: Vec<String>,
}

fn clone_string_vec(v: &Vec<String>) -> (r: Vec<String>)
    ensures
        r@ == v@,
{
    let n: usize = v.len();
    let mut r: Vec<String> = Vec::new();
    let mut i: usize = 0;
    while i < n
        invariant
            n == v.len(),
            i <= n,
            r@ == v@.take(i as int),
        decreases n - i,
    {
        r.push(v[i].clone());
        i = i + 1;
        proof {
            assert(r@ =~= v@.take(i as int));
        }
    }
    proof {
        assert(v@.take(n as int) =~= v@);
    }
    r
}

impl ModelRuntime {
    /// Answers one lifecycle action the way the runtime API documents it:
    /// removal deregisters the name, creation requires the image and
    /// registers the name, a pull makes the image local, inspection
    /// reports its digests, and a listing mentions the name exactly when a
    /// container is registered under it.
    pub fn respond(&mut self, b: &Bitcoind, action: Action) -> (e: Event)
        ensures
            match action {
                Action::Ping => *final(self) == *old(self) && (if old(self).daemon_up {
                    e is PingOk
                } else {
                    e is PingFailed
                }),
                Action::ListContainers => *final(self) == *old(self) && (e matches Event::Listing(
                    l,
                ) && (spec_listing_has(l.deep_view(), b.container_name@) <==> old(
                    self,
                ).container_present) && l@.len() == (if old(self).container_present {
                    1int
                } else {
                    0int
                })),
                Action::RemoveContainer => *final(self) == ModelRuntime {
                    container_present: false,
                    ..*old(self)
                } && e is Removed,
                Action::Sleep => *final(self) == *old(self) && e is Slept,
                Action::CreateContainer => if old(self).image_present {
                    *final(self) == ModelRuntime { container_present: true, ..*old(self) } && e
                        is Created
                } else {
                    *final(self) == *old(self) && (e matches Event::CreateFailed(m)
                        && spec_contains_sub(m@, "No such image"@))
                },
                Action::PullImage => *final(self) == ModelRuntime {
                    image_present: true,
                    ..*old(self)
                } && e is Pulled,
                Action::InspectImage => *final(self) == *old(self) && (e matches Event::Inspected(
                    ds,
                ) && ds@ == old(self).image_digests@),
            },
    {
        match action {
            Action::Ping => {
                if self.daemon_up {
                    Event::PingOk
                } else {
                    Event::PingFailed
                }
            },
            Action::ListContainers => {
                let mut listing: Vec<Vec<String>> = Vec::new();
                if self.container_present {
                    let mut slashed = String::from_str("/");
                    slashed.append(b.container_name.as_str());
                    let mut names: Vec<String> = Vec::new();
                    names.push(slashed);
                    listing.push(names);
                    proof {
                        assert(listing.deep_view()[0][0] == "/"@ + b.container_name@);
                        assert(listing.deep_view()[0].contains("/"@ + b.container_name@));
                    }
                }
                proof {
                    if !self.container_present {
                        assert(listing.deep_view().len() == 0);
                    }
                }
                Event::Listing(listing)
            },
            Action::RemoveContainer => {
                self.container_present = false;
                Event::Removed
            },
            Action::Sleep => Event::Slept,
            Action::CreateContainer => {
                if self.image_present {
                    self.container_present = true;
                    Event::Created
                } else {
                    let mut m = String::from_str("No such image: ");
                    m.append(b.image.as_str());
                    proof {
                        reveal_strlit("No such image: ");
                        reveal_strlit("No such image");
                        assert(m@.subrange(0, 13) =~= "No such image"@);
                        assert(occurs_at(m@, "No such image"@, 0));
                    }
                    Event::CreateFailed(m)
                }
            },
            Action::PullImage => {
                self.image_present = true;
                Event::Pulled
            },
            Action::InspectImage => {
                let ds = clone_string_vec(&self.image_digests);
                Event::Inspected(ds)
            },
        }
    }
}

/// The pinned digest, when there is one, is among those the image carries.
pub open spec fn spec_digest_ok(b: Bitcoind, rt: ModelRuntime) -> bool {
    b.pinned_digest matches Some(h) ==> rt.image_digests.deep_view().contains(h@)
}

/// `start` succeeds against runtime state `rt`: the daemon is up, and the
/// image is either already local (no digest check runs outside the pull
/// path) or will be pulled with an acceptable digest.
pub open spec fn spec_start_ok(b: Bitcoind, rt: ModelRuntime) -> bool {
    rt.daemon_up && (rt.image_present || spec_digest_ok(b, rt))
}

/// Runtime state after `start`: exactly one container under the name on
/// success, none on failure; the image stays local once pulled.
pub open spec fn spec_start_model(b: Bitcoind, rt: ModelRuntime) -> ModelRuntime {
    if !rt.daemon_up {
        rt
    } else if rt.image_present {
        ModelRuntime { container_present: true, ..rt }
    } else if spec_digest_ok(b, rt) {
        ModelRuntime { container_present: true, image_present: true, ..rt }
    } else {
        ModelRuntime { container_present: false, image_present: true, ..rt }
    }
}

/// Runtime state after `stop`: no container under the name, all else kept.
pub open spec fn spec_stop_model(rt: ModelRuntime) -> ModelRuntime {
    ModelRuntime { container_present: false, ..rt }
}

spec fn rank_major(p: Phase) -> int {
    match p {
        Phase::Ping => 8,
        Phase::Probe => 7,
        Phase::AwaitRemoval => 6,
        Phase::Poll { .. } => 5,
        Phase::PollSleep { .. } => 5,
        Phase::Create { retried } => if retried {
            1
        } else {
            4
        },
        Phase::Pull => 3,
        Phase::Inspect => 2,
        Phase::Settle => 0,
    }
}

spec fn rank_minor(p: Phase) -> int {
    match p {
        Phase::Poll { checks } => 2 * (STOP_POLL_LIMIT - checks),
        Phase::PollSleep { checks } => 2 * (STOP_POLL_LIMIT - checks) + 1,
        _ => 0,
    }
}

spec fn start_inv(
    b: Bitcoind,
    phase: Phase,
    action: Action,
    rt: ModelRuntime,
    rt0: ModelRuntime,
) -> bool {
    match phase {
        Phase::Ping => action == Action::Ping && rt == rt0,
        Phase::Probe => action == Action::ListContainers && rt == rt0 && rt0.daemon_up,
        Phase::AwaitRemoval => action == Action::RemoveContainer && rt == rt0 && rt0.daemon_up
            && rt0.container_present,
        Phase::Poll { checks } => action == Action::ListContainers && checks < STOP_POLL_LIMIT
            && rt == spec_stop_model(rt0) && rt0.daemon_up,
        Phase::PollSleep { checks } => action == Action::Sleep && checks < STOP_POLL_LIMIT && rt
            == spec_stop_model(rt0) && rt0.daemon_up,
        Phase::Create { retried } => action == Action::CreateContainer && rt0.daemon_up && (if retried {
            &&& rt == ModelRuntime { container_present: false, image_present: true, ..rt0 }
            &&& !rt0.image_present
            &&& spec_digest_ok(b, rt0)
        } else {
            rt == spec_stop_model(rt0)
        }),
        Phase::Pull => action == Action::PullImage && rt == spec_stop_model(rt0)
            && !rt0.image_present && rt0.daemon_up,
        Phase::Inspect => action == Action::InspectImage && rt == ModelRuntime {
            container_present: false,
            image_present: true,
            ..rt0
        } && !rt0.image_present && b.pinned_digest is Some && rt0.daemon_up,
        Phase::Settle => action == Action::Sleep && rt == spec_start_model(b, rt0)
            && spec_start_ok(b, rt0),
    }
}

/// Drives the complete `start` sequence of the lifecycle machine against
/// the modelled runtime and returns what `start` would: success exactly
/// when the daemon is up and the image is local or acceptably pinned, a
/// digest-mismatch error when the pulled image lacks the pinned digest,
/// and the daemon-unavailable error otherwise.
pub fn run_start(b: &Bitcoind, rt: &mut ModelRuntime) -> (r: Result<(), BitcoindError>)
    ensures
        *final(rt) == spec_start_model(*b, *old(rt)),
        r is Ok <==> spec_start_ok(*b, *old(rt)),
        !old(rt).daemon_up ==> (r matches Err(BitcoindError::DockerError(m)) && m@
            == "Docker daemon is not running. Make sure to start it before running this test"@),
        old(rt).daemon_up && !spec_start_ok(*b, *old(rt)) ==> (r matches Err(
            BitcoindError::ImageHashMismatch { expected, found },
        ) && b.pinned_digest matches Some(h) && expected@ == h@ && found@ == spec_join(
            old(rt).image_digests.deep_view(),
            ", "@,
        )),
{
    let (p0, a0) = b.begin_start();
    let mut phase = p0;
    let mut action = a0;
    loop
        invariant
            start_inv(*b, phase, action, *rt, *old(rt)),
        decreases rank_major(phase), rank_minor(phase),
    {
        let event = rt.respond(b, action);
        match b.step(phase, event, true) {
            Outcome::Continue(p, a) => {
                phase = p;
                action = a;
            },
            Outcome::Done(r) => {
                return r;
            },
        }
    }
}

spec fn stop_inv(
    b: Bitcoind,
    phase: Phase,
    action: Action,
    rt: ModelRuntime,
    rt0: ModelRuntime,
) -> bool {
    match phase {
        Phase::Probe => action == Action::ListContainers && rt == rt0,
        Phase::AwaitRemoval => action == Action::RemoveContainer && rt == rt0
            && rt0.container_present,
        Phase::Poll { checks } => action == Action::ListContainers && checks < STOP_POLL_LIMIT
            && rt == spec_stop_model(rt0),
        Phase::PollSleep { checks } => action == Action::Sleep && checks < STOP_POLL_LIMIT && rt
            == spec_stop_model(rt0),
        _ => false,
    }
}

/// Drives the complete `stop` sequence against the modelled runtime. It
/// always succeeds — also when no container exists — and afterwards no
/// container is registered under the managed name.
pub fn run_stop(b: &Bitcoind, rt: &mut ModelRuntime) -> (r: Result<(), BitcoindError>)
    ensures
        *final(rt) == spec_stop_model(*old(rt)),
        r is Ok,
{
    let (p0, a0) = b.begin_stop();
    let mut phase = p0;
    let mut action = a0;
    loop
        invariant
            stop_inv(*b, phase, action, *rt, *old(rt)),
        decreases rank_major(phase), rank_minor(phase),
    {
        let event = rt.respond(b, action);
        match b.step(phase, event, false) {
            Outcome::Continue(p, a) => {
                phase = p;
                action = a;
            },
            Outcome::Done(r) => {
                return r;
            },
        }
    }
}

/// For every configuration and every runtime state, `start` followed by
/// `stop` leaves no container registered under the managed name.
pub proof fn lemma_start_then_stop_leaves_none(b: Bitcoind, rt: ModelRuntime)
    ensures
        !spec_stop_model(spec_start_model(b, rt)).container_present,
{
}

/// `start` is idempotent with respect to prior state: issued while a
/// container already exists under the name, it succeeds, leaves exactly
/// one (freshly created) container, and ends in the same runtime state as
/// a `start` from a clean runtime.
pub proof fn lemma_start_idempotent(b: Bitcoind, rt: ModelRuntime)
    requires
        rt.daemon_up,
        rt.container_present,
        rt.image_present || spec_digest_ok(b, rt),
    ensures
        spec_start_ok(b, rt),
        spec_start_model(b, rt).container_present,
        spec_start_model(b, rt) == spec_start_model(b, spec_stop_model(rt)),
{
}

/// `stop` is idempotent: issued when no container exists it succeeds (see
/// `run_stop`, which never returns an error) and changes nothing.
pub proof fn lemma_stop_idempotent(rt: ModelRuntime)
    requires
        !rt.container_present,
    ensures
        spec_stop_model(rt) == rt,
{
}

/// A pinned digest that the pulled image does not carry makes `start`
/// fail — with the distinguishable mismatch error, per `run_start` — and
/// leaves no container running. The digest check runs inside the pull
/// path, so it guards exactly the runs where the image was not yet local.
pub proof fn lemma_digest_mismatch_fails(b: Bitcoind, rt: ModelRuntime)
    requires
        rt.daemon_up,
        !rt.image_present,
        b.pinned_digest matches Some(h) && !rt.image_digests.deep_view().contains(h@),
    ensures
        !spec_start_ok(b, rt),
        !spec_start_model(b, rt).container_present,
{
}

/// A pinned digest that the image does carry lets `start` succeed.
pub proof fn lemma_digest_match_succeeds(b: Bitcoind, rt: ModelRuntime)
    requires
        rt.daemon_up,
        b.pinned_digest matches Some(h) && rt.image_digests.deep_view().contains(h@),
    ensures
        spec_start_ok(b, rt),
        spec_start_model(b, rt).container_present,
{
}

} // verus!
