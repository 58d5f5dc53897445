//! The node lifecycle manager: launch-argument composition, pinned-digest
//! normalization, container-listing inspection, and the state machine that
//! sequences the container-runtime calls for `start` and `stop`.
//!
//! The manager itself never talks to the runtime. Each public operation is
//! expressed as a machine: the caller begins with [`Bitcoind::begin_start`]
//! or [`Bitcoind::begin_stop`], performs the returned [`Action`] against
//! the runtime, and feeds the observed [`Event`] into [`Bitcoind::step`]
//! until it yields [`Outcome::Done`].

use vstd::prelude::*;
use vstd::string::*;
use crate::config::{BitcoindConfig, RpcConfig};
use crate::error::BitcoindError;
use crate::text::{contains_substring, spec_contains_sub, spec_dec, u64_to_dec_string};

verus! {

/// How many times the stop routine re-checks the container listing before
/// giving up on confirmation (the routine still reports success then).
pub const STOP_POLL_LIMIT: u8 = 10;

/// Tunables of the node process, translated one-to-one into launch
/// arguments. The fee rates are decimal text, written into the argument
/// exactly as given.
#[derive(Clone, Debug)]
pub struct BitcoindFlags {
    /// Value of `-minrelaytxfee`, a decimal fee rate.
    pub min_relay_tx_fee: String,
    /// Value of `-blockmintxfee`, a decimal fee rate.
    pub block_min_tx_fee: String,
    /// Value of `-debug`, a verbosity level.
    pub debug: u8,
    /// Value of `-fallbackfee`, a decimal fee rate.
    pub fallback_fee: String,
    /// Mempool size cap in megabytes; `-maxmempool` is passed only when
    /// this is set.
    pub maxmempool: Option<u64>,
}

/// The documented default flag values.
pub open spec fn is_default_flags(f: BitcoindFlags) -> bool {
    &&& f.min_relay_tx_fee@ == "0.00001"@
    &&& f.block_min_tx_fee@ == "0.00001"@
    &&& f.debug == 1u8
    &&& f.fallback_fee@ == "0.0002"@
    &&& f.maxmempool is None
}

impl Default for BitcoindFlags {
    fn default() -> (f: Self)
        ensures
            is_default_flags(f),
    {
        BitcoindFlags {
            min_relay_tx_fee: String::from_str("0.00001"),
            block_min_tx_fee: String::from_str("0.00001"),
            debug: 1,
            fallback_fee: String::from_str("0.0002"),
            maxmempool: None,
        }
    }
}

/// Position `i` separates the repository component of an image reference
/// from its tag: a `':'` with no further `'/'` or `':'` after it.
pub open spec fn is_tag_sep(s: Seq<char>, i: int) -> bool {
    &&& 0 <= i < s.len()
    &&& s[i] == ':'
    &&& forall|j: int| i < j < s.len() ==> s[j] != '/' && s[j] != ':'
}

/// The repository component of an image reference: everything before the
/// tag separator, or the whole reference when it carries no tag.
pub open spec fn spec_repository(s: Seq<char>) -> Seq<char> {
    if exists|i: int| is_tag_sep(s, i) {
        s.take(choose|i: int| is_tag_sep(s, i))
    } else {
        s
    }
}

proof fn lemma_tag_sep_unique(s: Seq<char>, i1: int, i2: int)
    requires
        is_tag_sep(s, i1),
        is_tag_sep(s, i2),
    ensures
        i1 == i2,
{
    if i1 < i2 {
        assert(s[i2] != ':');
    }
    if i2 < i1 {
        assert(s[i1] != ':');
    }
}

/// Strips the tag from an image reference, as [`spec_repository`] says.
pub fn repository_of(image: &str) -> (r: &str)
    ensures
        r@ == spec_repository(image@),
{
    let n: usize = image.unicode_len();
    let mut j: usize = n;
    while j > 0
        invariant
            n == image@.len(),
            j <= n,
            forall|k: int| j <= k < n ==> image@[k] != '/' && image@[k] != ':',
        decreases j,
    {
        let c = image.get_char(j - 1);
        if c == ':' {
            proof {
                assert(is_tag_sep(image@, j - 1));
                let w = choose|i: int| is_tag_sep(image@, i);
                lemma_tag_sep_unique(image@, w, j - 1);
            }
            return image.substring_char(0, j - 1);
        }
        if c == '/' {
            proof {
                assert forall|i: int| !is_tag_sep(image@, i) by {
                    if is_tag_sep(image@, i) {
                        if i < j - 1 {
                            assert(image@[j - 1] != '/');
                        } else if i > j - 1 {
                            assert(image@[i] != ':');
                        }
                    }
                }
            }
            return image;
        }
        j = j - 1;
    }
    proof {
        assert forall|i: int| !is_tag_sep(image@, i) by {
            if is_tag_sep(image@, i) {
                assert(image@[i] != ':');
            }
        }
    }
    image
}

/// A pinned digest as a fully qualified image reference,
/// `repository@digest`.
pub fn qualified_digest(image: &str, hash: &str) -> (q: String)
    ensures
        q@ == spec_repository(image@) + "@"@ + hash@,
{
    let repo = repository_of(image);
    let mut q = repo.to_owned();
    q.append("@");
    q.append(hash);
    q
}

/// A runtime name listing (one inner vector of registered names per
/// container) mentions the managed name. The runtime registers each name
/// with a leading slash.
pub open spec fn spec_listing_has(l: Seq<Seq<Seq<char>>>, name: Seq<char>) -> bool {
    exists|i: int| 0 <= i < l.len() && l[i].contains("/"@ + name)
}

fn vec_contains_string(v: &Vec<String>, s: &String) -> (b: bool)
    ensures
        b == v.deep_view().contains(s@),
{
    let n: usize = v.len();
    let mut i: usize = 0;
    while i < n
        invariant
            n == v.len(),
            i <= n,
            forall|j: int| 0 <= j < i ==> v.deep_view()[j] != s@,
        decreases n - i,
    {
        if v[i].eq(s) {
            proof {
                assert(v.deep_view()[i as int] == s@);
            }
            return true;
        }
        i = i + 1;
    }
    proof {
        assert(!v.deep_view().contains(s@)) by {
            if v.deep_view().contains(s@) {
                let k = choose|k: int| 0 <= k < v.deep_view().len() && v.deep_view()[k] == s@;
                assert(v.deep_view()[k] != s@);
            }
        }
    }
    false
}

/// Whether a listing of containers, each with its registered names,
/// mentions `container_name` (exact match against the slash-prefixed form).
pub fn listing_has_container(listing: &Vec<Vec<String>>, container_name: &str) -> (b: bool)
    ensures
        b == spec_listing_has(listing.deep_view(), container_name@),
{
    let mut slashed = String::from_str("/");
    slashed.append(container_name);
    let n: usize = listing.len();
    let mut i: usize = 0;
    while i < n
        invariant
            n == listing.len(),
            i <= n,
            slashed@ == "/"@ + container_name@,
            forall|j: int| 0 <= j < i ==> !listing.deep_view()[j].contains("/"@ + container_name@),
        decreases n - i,
    {
        if vec_contains_string(&listing[i], &slashed) {
            proof {
                assert(listing.deep_view()[i as int].contains("/"@ + container_name@));
            }
            return true;
        }
        i = i + 1;
    }
    false
}

/// Joins digest references with `", "`, for the mismatch diagnostic.
pub open spec fn spec_join(l: Seq<Seq<char>>, sep: Seq<char>) -> Seq<char>
    decreases l.len(),
{
    if l.len() == 0 {
        Seq::empty()
    } else if l.len() == 1 {
        l[0]
    } else {
        l[0] + sep + spec_join(l.drop_first(), sep)
    }
}

fn join_suffix(l: &Vec<String>, i: usize) -> (s: String)
    requires
        i <= l.len(),
    ensures
        s@ == spec_join(l.deep_view().skip(i as int), ", "@),
    decreases l.len() - i,
{
    if i == l.len() {
        proof {
            assert(l.deep_view().skip(i as int) =~= Seq::<Seq<char>>::empty());
        }
        String::new()
    } else if i + 1 == l.len() {
        proof {
            assert(l.deep_view().skip(i as int).len() == 1);
        }
        l[i].clone()
    } else {
        let mut s = l[i].clone();
        s.append(", ");
        let rest = join_suffix(l, i + 1);
        s.append(rest.as_str());
        proof {
            assert(l.deep_view().skip(i as int).drop_first() =~= l.deep_view().skip(i as int + 1));
            assert(l.deep_view().skip(i as int).len() >= 2);
        }
        s
    }
}

/// The digests an image carries, joined for display.
pub fn join_digests(l: &Vec<String>) -> (s: String)
    ensures
        s@ == spec_join(l.deep_view(), ", "@),
{
    let s = join_suffix(l, 0);
    proof {
        assert(l.deep_view().skip(0) =~= l.deep_view());
    }
    s
}

/// The node lifecycle manager: the resolved container name, image
/// reference, optional qualified pinned digest, launch flags and RPC
/// credentials. It decides every lifecycle step; a driver performs them.
#[derive(Clone, Debug)]
pub struct Bitcoind {
    pub container_name: String,
    pub image: String,
    /// Fully qualified pinned digest, `repository@sha256:<hex>`, when the
    /// configuration pins one.
    pub pinned_digest: Option<String>,
    pub rpc_config: RpcConfig,
    pub flags: BitcoindFlags,
}

impl Bitcoind {
    /// A manager with the default flags and no pinned digest.
    pub fn new(container_name: &str, image: &str, rpc_config: RpcConfig) -> (b: Self)
        ensures
            b.container_name@ == container_name@,
            b.image@ == image@,
            b.pinned_digest is None,
            b.rpc_config == rpc_config,
            is_default_flags(b.flags),
    {
        Self::new_with_flags(container_name, image, rpc_config, BitcoindFlags::default())
    }

    /// A manager with the given flags and no pinned digest.
    pub fn new_with_flags(
        container_name: &str,
        image: &str,
        rpc_config: RpcConfig,
        flags: BitcoindFlags,
    ) -> (b: Self)
        ensures
            b.container_name@ == container_name@,
            b.image@ == image@,
            b.pinned_digest is None,
            b.rpc_config == rpc_config,
            b.flags == flags,
    {
        Bitcoind {
            container_name: container_name.to_owned(),
            image: image.to_owned(),
            pinned_digest: None,
            rpc_config,
            flags,
        }
    }

    /// A manager built from a full configuration; a pinned digest is
    /// normalized into its fully qualified `repository@digest` form.
    pub fn from_config(config: BitcoindConfig, flags: BitcoindFlags) -> (b: Self)
        ensures
            b.container_name == config.container_name,
            b.image == config.image,
            b.rpc_config == config.rpc_config,
            b.flags == flags,
            config.hash is None ==> b.pinned_digest is None,
            config.hash matches Some(h) ==> b.pinned_digest matches Some(q) && q@
                == spec_repository(config.image@) + "@"@ + h@,
    {
        let pinned = match &config.hash {
            None => None,
            Some(h) => Some(qualified_digest(config.image.as_str(), h.as_str())),
        };
        Bitcoind {
            container_name: config.container_name,
            image: config.image,
            pinned_digest: pinned,
            rpc_config: config.rpc_config,
            flags,
        }
    }
}

/// Everything a driver must hand the runtime to create and launch the
/// container: fixed regtest flags, credential-derived RPC arguments, the
/// formatted tunables, the single published RPC port and the environment.
#[derive(Clone, Debug)]
pub struct LaunchPlan {
    pub container_name: String,
    pub image: String,
    /// Environment of the node process.
    pub env: Vec<String>,
    /// Container-side port specification.
    pub container_port: String,
    /// Host interface the port is bound to.
    pub host_ip: String,
    /// Host-side port.
    pub host_port: String,
    /// The runtime reaps the container's resources on removal.
    pub auto_remove: bool,
    /// Process launch arguments, in order.
    pub cmd: Vec<String>,
}

/// The launch arguments of the node process, in order: fixed regtest
/// flags, RPC credentials, then the formatted tunables; `-maxmempool` is
/// appended only when a cap is configured.
pub open spec fn spec_cmd(b: Bitcoind) -> Seq<Seq<char>> {
    let base = seq![
        "-regtest=1"@,
        "-printtoconsole"@,
        "-rpcallowip=0.0.0.0/0"@,
        "-rpcbind=0.0.0.0"@,
        "-rpcuser="@ + b.rpc_config.username@,
        "-rpcpassword="@ + b.rpc_config.password@,
        "-server=1"@,
        "-txindex=1"@,
        "-debug="@ + spec_dec(b.flags.debug as nat),
        "-minrelaytxfee="@ + b.flags.min_relay_tx_fee@,
        "-blockmintxfee="@ + b.flags.block_min_tx_fee@,
        "-fallbackfee="@ + b.flags.fallback_fee@,
    ];
    match b.flags.maxmempool {
        Some(m) => base.push("-maxmempool="@ + spec_dec(m as nat)),
        None => base,
    }
}

fn prefixed(prefix: &str, value: &str) -> (s: String)
    ensures
        s@ == prefix@ + value@,
{
    let mut s = prefix.to_owned();
    s.append(value);
    s
}

impl Bitcoind {
    /// Composes the complete creation request for the container.
    ///
    /// The published binding is fixed at the protocol-standard regtest RPC
    /// port on all interfaces; it is not derived from the configured RPC
    /// URL, whose port would be the natural source of truth.
    pub fn launch_plan(&self) -> (p: LaunchPlan)
        ensures
            p.container_name@ == self.container_name@,
            p.image@ == self.image@,
            p.env@.len() == 1 && p.env@[0]@ == "BITCOIN_DATA=/data"@,
            p.container_port@ == "18443/tcp"@,
            p.host_ip@ == "0.0.0.0"@,
            p.host_port@ == "18443"@,
            p.auto_remove,
            p.cmd.deep_view() == spec_cmd(*self),
    {
        let mut env: Vec<String> = Vec::new();
        env.push(String::from_str("BITCOIN_DATA=/data"));

        let mut cmd: Vec<String> = Vec::new();
        cmd.push(String::from_str("-regtest=1"));
        cmd.push(String::from_str("-printtoconsole"));
        cmd.push(String::from_str("-rpcallowip=0.0.0.0/0"));
        cmd.push(String::from_str("-rpcbind=0.0.0.0"));
        cmd.push(prefixed("-rpcuser=", self.rpc_config.username.as_str()));
        cmd.push(prefixed("-rpcpassword=", self.rpc_config.password.as_str()));
        cmd.push(String::from_str("-server=1"));
        cmd.push(String::from_str("-txindex=1"));
        let debug = u64_to_dec_string(self.flags.debug as u64);
        cmd.push(prefixed("-debug=", debug.as_str()));
        cmd.push(prefixed("-minrelaytxfee=", self.flags.min_relay_tx_fee.as_str()));
        cmd.push(prefixed("-blockmintxfee=", self.flags.block_min_tx_fee.as_str()));
        cmd.push(prefixed("-fallbackfee=", self.flags.fallback_fee.as_str()));
        match self.flags.maxmempool {
            Some(m) => {
                let cap = u64_to_dec_string(m);
                cmd.push(prefixed("-maxmempool=", cap.as_str()));
            },
            None => {},
        }
        proof {
            assert(cmd.deep_view() =~~= spec_cmd(*self));
        }
        LaunchPlan {
            container_name: self.container_name.clone(),
            image: self.image.clone(),
            env,
            container_port: String::from_str("18443/tcp"),
            host_ip: String::from_str("0.0.0.0"),
            host_port: String::from_str("18443"),
            auto_remove: true,
            cmd,
        }
    }
}

/// One operation the driver must perform against the container runtime.
#[derive(Clone, Copy, Debug, PartialEq, Eq, Structural)]
pub enum Action {
    /// Liveness-probe the runtime daemon.
    Ping,
    /// List all containers together with their registered names.
    ListContainers,
    /// Force-remove the managed container.
    RemoveContainer,
    /// Pause for one second.
    Sleep,
    /// Create and start the container from [`Bitcoind::launch_plan`].
    CreateContainer,
    /// Pull the configured image.
    PullImage,
    /// Inspect the pulled image for its repository digests.
    InspectImage,
}

/// What the runtime answered to the last requested [`Action`].
#[derive(Clone, Debug)]
pub enum Event {
    PingOk,
    PingFailed,
    /// The registered names of each listed container.
    Listing(Vec<Vec<String>>),
    Removed,
    Slept,
    Created,
    /// Creation failed; the runtime's message, verbatim.
    CreateFailed(String),
    Pulled,
    /// The repository digests the inspected image carries.
    Inspected(Vec<String>),
    /// The requested operation failed; the runtime's message, verbatim.
    ApiFailed(String),
}

/// Where the machine stands: which runtime answer it is waiting for.
#[derive(Clone, Copy, Debug, PartialEq, Eq, Structural)]
pub enum Phase {
    /// Waiting for the daemon liveness probe.
    Ping,
    /// Waiting for the presence probe of the idempotent removal routine.
    Probe,
    /// Waiting for the forced removal to be acknowledged.
    AwaitRemoval,
    /// Waiting for the listing of removal-confirmation round `checks`.
    Poll { checks: u8 },
    /// Waiting for the pause before removal-confirmation round `checks`.
    PollSleep { checks: u8 },
    /// Waiting for container creation; `retried` after the pull path.
    Create { retried: bool },
    /// Waiting for the image pull to finish.
    Pull,
    /// Waiting for the image digest inspection.
    Inspect,
    /// Waiting for the post-launch pause.
    Settle,
}

/// What the lifecycle machine decided after an event.
#[derive(Debug)]
pub enum Outcome {
    /// Perform the action, then feed the observed event back into
    /// [`Bitcoind::step`] at the given phase.
    Continue(Phase, Action),
    /// The operation settled with this result.
    Done(Result<(), BitcoindError>),
}

/// `o` asks the driver to go on at phase `p` with action `a`.
pub open spec fn continues_to(o: Outcome, p: Phase, a: Action) -> bool {
    o matches Outcome::Continue(p2, a2) && p2 == p && a2 == a
}

/// `o` reports success.
pub open spec fn done_ok(o: Outcome) -> bool {
    o matches Outcome::Done(r) && r is Ok
}

/// `o` surfaces a runtime-API failure with message `m`.
pub open spec fn done_docker_err(o: Outcome, m: Seq<char>) -> bool {
    o matches Outcome::Done(r) && r matches Err(BitcoindError::DockerError(e)) && e@ == m
}

/// `o` reports a pinned-digest mismatch with the given diagnostics.
pub open spec fn done_mismatch(o: Outcome, expected: Seq<char>, found: Seq<char>) -> bool {
    &&& o matches Outcome::Done(r)
    &&& r matches Err(BitcoindError::ImageHashMismatch { expected: e, found: f })
    &&& e@ == expected
    &&& f@ == found
}

/// `o` reports an unclassified failure with message `m`.
pub open spec fn done_other(o: Outcome, m: Seq<char>) -> bool {
    o matches Outcome::Done(r) && r matches Err(BitcoindError::Other(e)) && e@ == m
}

/// What follows once the managed name is confirmed (or presumed) gone:
/// `start` goes on to create the fresh container, `stop` is finished.
pub open spec fn after_stop(o: Outcome, then_create: bool) -> bool {
    if then_create {
        continues_to(o, Phase::Create { retried: false }, Action::CreateContainer)
    } else {
        done_ok(o)
    }
}

/// The complete transition relation of the lifecycle machine: what
/// [`Bitcoind::step`] returns for every phase and event.
pub open spec fn spec_step(
    b: Bitcoind,
    phase: Phase,
    event: Event,
    then_create: bool,
    o: Outcome,
) -> bool {
    match (phase, event) {
        (Phase::Ping, Event::PingOk) => continues_to(o, Phase::Probe, Action::ListContainers),
        (Phase::Ping, Event::PingFailed) => done_docker_err(
            o,
            "Docker daemon is not running. Make sure to start it before running this test"@,
        ),
        (Phase::Probe, Event::Listing(l)) => if spec_listing_has(
            l.deep_view(),
            b.container_name@,
        ) {
            continues_to(o, Phase::AwaitRemoval, Action::RemoveContainer)
        } else {
            after_stop(o, then_create)
        },
        (Phase::AwaitRemoval, Event::Removed) => continues_to(
            o,
            Phase::Poll { checks: 0 },
            Action::ListContainers,
        ),
        (Phase::Poll { checks }, Event::Listing(l)) => if !spec_listing_has(
            l.deep_view(),
            b.container_name@,
        ) {
            after_stop(o, then_create)
        } else if checks < STOP_POLL_LIMIT - 1 {
            continues_to(o, Phase::PollSleep { checks: (checks + 1) as u8 }, Action::Sleep)
        } else {
            after_stop(o, then_create)
        },
        (Phase::PollSleep { checks }, Event::Slept) => continues_to(
            o,
            Phase::Poll { checks },
            Action::ListContainers,
        ),
        (Phase::Create { .. }, Event::Created) => continues_to(o, Phase::Settle, Action::Sleep),
        (Phase::Create { retried }, Event::CreateFailed(m)) => if !retried && spec_contains_sub(
            m@,
            "No such image"@,
        ) {
            continues_to(o, Phase::Pull, Action::PullImage)
        } else {
            done_docker_err(o, m@)
        },
        (Phase::Pull, Event::Pulled) => if b.pinned_digest is Some {
            continues_to(o, Phase::Inspect, Action::InspectImage)
        } else {
            continues_to(o, Phase::Create { retried: true }, Action::CreateContainer)
        },
        (Phase::Inspect, Event::Inspected(ds)) => match b.pinned_digest {
            Some(h) => if ds.deep_view().contains(h@) {
                continues_to(o, Phase::Create { retried: true }, Action::CreateContainer)
            } else {
                done_mismatch(o, h@, spec_join(ds.deep_view(), ", "@))
            },
            None => continues_to(o, Phase::Create { retried: true }, Action::CreateContainer),
        },
        (Phase::Settle, Event::Slept) => done_ok(o),
        (_, Event::ApiFailed(m)) => done_docker_err(o, m@),
        _ => done_other(o, "unexpected runtime event"@),
    }
}

/// During `start`, the fresh container is created only once the removal
/// routine has settled: the machine reaches the creation request alone
/// from a presence probe or confirmation poll — and, short of the poll
/// budget running out after a forced removal, only on a listing that no
/// longer mentions the managed name.
pub proof fn lemma_create_only_after_removal(b: Bitcoind, phase: Phase, event: Event, o: Outcome)
    requires
        spec_step(b, phase, event, true, o),
        continues_to(o, Phase::Create { retried: false }, Action::CreateContainer),
    ensures
        phase is Probe || phase is Poll,
        event is Listing,
        (event matches Event::Listing(l) && spec_listing_has(l.deep_view(), b.container_name@))
            ==> (phase matches Phase::Poll { checks } && checks >= STOP_POLL_LIMIT - 1),
{
}

fn stop_settled(then_create: bool) -> (o: Outcome)
    ensures
        after_stop(o, then_create),
{
    if then_create {
        Outcome::Continue(Phase::Create { retried: false }, Action::CreateContainer)
    } else {
        Outcome::Done(Ok(()))
    }
}

impl Bitcoind {
    /// The first phase and action of `start`: probe the daemon, then
    /// idempotently remove any pre-existing container under the name, then
    /// create, with one pull-and-retry when the image is absent or stale.
    pub fn begin_start(&self) -> (r: (Phase, Action))
        ensures
            r.0 == Phase::Ping,
            r.1 == Action::Ping,
    {
        (Phase::Ping, Action::Ping)
    }

    /// The first phase and action of `stop`: the idempotent removal
    /// routine, safe to run when no container exists.
    pub fn begin_stop(&self) -> (r: (Phase, Action))
        ensures
            r.0 == Phase::Probe,
            r.1 == Action::ListContainers,
    {
        (Phase::Probe, Action::ListContainers)
    }

    /// Advances the lifecycle machine by one event, exactly as
    /// [`spec_step`] describes. With `then_create` the removal routine is
    /// the first half of `start`; without it the machine is `stop`.
    pub fn step(&self, phase: Phase, event: Event, then_create: bool) -> (o: Outcome)
        ensures
            spec_step(*self, phase, event, then_create, o),
    {
        match (phase, event) {
            (Phase::Ping, Event::PingOk) => Outcome::Continue(
                Phase::Probe,
                Action::ListContainers,
            ),
            (Phase::Ping, Event::PingFailed) => Outcome::Done(
                Err(
                    BitcoindError::DockerError(
                        String::from_str(
                            "Docker daemon is not running. Make sure to start it before running this test",
                        ),
                    ),
                ),
            ),
            (Phase::Probe, Event::Listing(l)) => {
                if listing_has_container(&l, self.container_name.as_str()) {
                    Outcome::Continue(Phase::AwaitRemoval, Action::RemoveContainer)
                } else {
                    stop_settled(then_create)
                }
            },
            (Phase::AwaitRemoval, Event::Removed) => Outcome::Continue(
                Phase::Poll { checks: 0 },
                Action::ListContainers,
            ),
            (Phase::Poll { checks }, Event::Listing(l)) => {
                if !listing_has_container(&l, self.container_name.as_str()) {
                    stop_settled(then_create)
                } else if checks < STOP_POLL_LIMIT - 1 {
                    Outcome::Continue(Phase::PollSleep { checks: checks + 1 }, Action::Sleep)
                } else {
                    stop_settled(then_create)
                }
            },
            (Phase::PollSleep { checks }, Event::Slept) => Outcome::Continue(
                Phase::Poll { checks },
                Action::ListContainers,
            ),
            (Phase::Create { retried: _ }, Event::Created) => Outcome::Continue(
                Phase::Settle,
                Action::Sleep,
            ),
            (Phase::Create { retried }, Event::CreateFailed(m)) => {
                if !retried && contains_substring(m.as_str(), "No such image") {
                    Outcome::Continue(Phase::Pull, Action::PullImage)
                } else {
                    Outcome::Done(Err(BitcoindError::DockerError(m)))
                }
            },
            (Phase::Pull, Event::Pulled) => {
                match &self.pinned_digest {
                    Some(_) => Outcome::Continue(Phase::Inspect, Action::InspectImage),
                    None => Outcome::Continue(
                        Phase::Create { retried: true },
                        Action::CreateContainer,
                    ),
                }
            },
            (Phase::Inspect, Event::Inspected(ds)) => {
                match &self.pinned_digest {
                    Some(h) => {
                        if vec_contains_string(&ds, h) {
                            Outcome::Continue(
                                Phase::Create { retried: true },
                                Action::CreateContainer,
                            )
                        } else {
                            Outcome::Done(
                                Err(
                                    BitcoindError::ImageHashMismatch {
                                        expected: h.clone(),
                                        found: join_digests(&ds),
                                    },
                                ),
                            )
                        }
                    },
                    None => Outcome::Continue(
                        Phase::Create { retried: true },
                        Action::CreateContainer,
                    ),
                }
            },
            (Phase::Settle, Event::Slept) => Outcome::Done(Ok(())),
            (_, Event::ApiFailed(m)) => Outcome::Done(Err(BitcoindError::DockerError(m))),
            _ => Outcome::Done(
                Err(BitcoindError::Other(String::from_str("unexpected runtime event"))),
            ),
        }
    }
}

} // verus!
