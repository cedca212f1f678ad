//! The registry of running endpoints, keyed by configuration identifier, and
//! the decisions that starting and stopping one take against it.

use vstd::prelude::*;
use crate::config::ProxyConfig;
use crate::error::{CommandError, ProxyError};
use crate::text::{decimal, joined, u16_text};

verus! {

#[verifier::external_type_specification]
#[verifier::external_body]
#[verifier::reject_recursive_types(T)]
pub struct ExOneshotSender<T>(tokio::sync::oneshot::Sender<T>);

#[verifier::external_type_specification]
#[verifier::external_body]
#[verifier::reject_recursive_types(T)]
pub struct ExJoinHandle<T>(tokio::task::JoinHandle<T>);

#[verifier::external_type_specification]
#[verifier::external_body]
pub struct ExJoinError(tokio::task::JoinError);

/// How long a stop waits for the server task to finish, in milliseconds.
pub const STOP_TIMEOUT_MS: u64 = 5000;

/// How long a stop sleeps between two looks at the server task, in
/// milliseconds.
pub const STOP_POLL_MS: u64 = 50;

/// One running endpoint: the configuration it was built from, the signal
/// that asks its server to stop, and the task that serves it.
pub struct ProxyInstance {
    pub config: ProxyConfig,
    pub shutdown_tx: tokio::sync::oneshot::Sender<()>,
    pub server_handle: tokio::task::JoinHandle<()>,
}

/// The identifiers of a sequence of running endpoints, in order.
pub open spec fn ids_of(s: Seq<ProxyInstance>) -> Seq<Seq<char>> {
    s.map_values(|e: ProxyInstance| e.config.id@)
}

/// The running endpoints. At most one runs per configuration identifier.
pub struct Registry {
    entries: Vec<ProxyInstance>,
}

impl View for Registry {
    type V = Seq<ProxyInstance>;

    closed spec fn view(&self) -> Seq<ProxyInstance> {
        self.entries@
    }
}

impl Registry {
    /// No identifier runs twice.
    #[verifier::type_invariant]
    spec fn unique_ids(&self) -> bool {
        ids_of(self.entries@).no_duplicates()
    }

    /// No identifier runs twice.
    pub open spec fn wf(&self) -> bool {
        ids_of(self@).no_duplicates()
    }

    /// The identifiers that run.
    pub open spec fn ids(&self) -> Seq<Seq<char>> {
        ids_of(self@)
    }

    /// A registry with nothing running.
    pub fn new() -> (r: Registry)
        ensures
            r@ == Seq::<ProxyInstance>::empty(),
            r.wf(),
    {
        let r = Registry { entries: Vec::new() };
        assert(ids_of(r@) =~= Seq::<Seq<char>>::empty());
        r
    }

    /// How many endpoints run.
    pub fn len(&self) -> (r: usize)
        ensures
            r == self@.len(),
    {
        self.entries.len()
    }

    fn index_of(&self, id: &String) -> (r: Option<usize>)
        ensures
            r is Some ==> r->Some_0 < self@.len() && self.ids()[r->Some_0 as int] == id@,
            r is None ==> !self.ids().contains(id@),
    {
        let mut i: usize = 0;
        while i < self.entries.len()
            invariant
                i <= self.entries@.len(),
                forall|j: int| 0 <= j < i ==> (#[trigger] self.entries@[j]).config.id@ != id@,
            decreases self.entries.len() - i,
        {
            if self.entries[i].config.id == *id {
                return Some(i);
            }
            i = i + 1;
        }
        proof {
            if self.ids().contains(id@) {
                let k = choose|k: int| 0 <= k < self.ids().len() && self.ids()[k] == id@;
                assert(self.entries@[k].config.id@ == id@);
            }
        }
        None
    }

    /// Whether an endpoint with identifier `id` runs.
    pub fn contains(&self, id: &String) -> (r: bool)
        ensures
            r == self.ids().contains(id@),
    {
        self.index_of(id).is_some()
    }

    /// Records a started endpoint, unless one with its identifier already
    /// runs: then the new one is handed back and nothing changes. The check
    /// and the insertion are one step.
    pub fn try_insert(&mut self, instance: ProxyInstance) -> (r: Result<(), ProxyInstance>)
        ensures
            final(self).wf(),
            old(self).ids().contains(instance.config.id@) ==> r == Err::<(), ProxyInstance>(instance)
                && final(self)@ == old(self)@,
            !old(self).ids().contains(instance.config.id@) ==> r is Ok && final(self)@ == old(self)@.push(
                instance,
            ),
    {
        proof {
            use_type_invariant(&*self);
        }
        if self.contains(&instance.config.id) {
            return Err(instance);
        }
        let ghost before = self@;
        let mut entries = self.take_entries();
        entries.push(instance);
        assert(ids_of(entries@) =~= ids_of(before).push(instance.config.id@));
        *self = Registry { entries };
        Ok(())
    }

    /// Takes the endpoint with identifier `id` out of the registry.
    pub fn remove(&mut self, id: &String) -> (r: Option<ProxyInstance>)
        ensures
            final(self).wf(),
            !old(self).ids().contains(id@) ==> r is None && final(self)@ == old(self)@,
            old(self).ids().contains(id@) ==> exists|k: int|
                0 <= k < old(self)@.len() && old(self).ids()[k] == id@ && r == Some(old(self)@[k])
                    && final(self)@ == #[trigger] old(self)@.remove(k),
    {
        proof {
            use_type_invariant(&*self);
        }
        match self.index_of(id) {
            Some(k) => {
                let ghost before = self@;
                let mut entries = self.take_entries();
                let e = entries.remove(k);
                assert(ids_of(entries@) =~= ids_of(before).remove(k as int));
                proof {
                    let a = ids_of(before);
                    assert forall|i: int, j: int|
                        0 <= i < a.remove(k as int).len() && 0 <= j < a.remove(k as int).len() && i != j
                            implies a.remove(k as int)[i] != a.remove(k as int)[j] by {
                        let i2 = if i < k { i } else { i + 1 };
                        let j2 = if j < k { j } else { j + 1 };
                        assert(a.remove(k as int)[i] == a[i2]);
                        assert(a.remove(k as int)[j] == a[j2]);
                    }
                }
                *self = Registry { entries };
                Some(e)
            },
            None => None,
        }
    }

    /// Empties the registry, handing out every running endpoint in order.
    pub fn drain(&mut self) -> (r: Vec<ProxyInstance>)
        ensures
            r@ == old(self)@,
            final(self)@ == Seq::<ProxyInstance>::empty(),
            final(self).wf(),
    {
        self.take_entries()
    }

    fn take_entries(&mut self) -> (r: Vec<ProxyInstance>)
        ensures
            r@ == old(self)@,
            final(self)@ == Seq::<ProxyInstance>::empty(),
            final(self).wf(),
    {
        let mut taken = Registry::new();
        std::mem::swap(self, &mut taken);
        let Registry { entries } = taken;
        entries
    }
}

/// What a start request meets before anything is bound.
#[derive(Debug, Clone, Copy, PartialEq, Eq, Structural)]
pub enum StartVerdict {
    /// The port may be probed and the server built.
    Proceed,
    /// An endpoint with this identifier already runs.
    AlreadyRunning,
    /// Port zero is never available.
    PortUnavailable,
}

pub open spec fn start_verdict_of(running: Seq<Seq<char>>, id: Seq<char>, port: u16) -> StartVerdict {
    if running.contains(id) {
        StartVerdict::AlreadyRunning
    } else if port == 0 {
        StartVerdict::PortUnavailable
    } else {
        StartVerdict::Proceed
    }
}

/// Whether `config` may start given what runs.
pub fn check_start(registry: &Registry, config: &ProxyConfig) -> (r: StartVerdict)
    ensures
        r == start_verdict_of(registry.ids(), config.id@, config.listen_port),
{
    if registry.contains(&config.id) {
        StartVerdict::AlreadyRunning
    } else if config.listen_port == 0 {
        StartVerdict::PortUnavailable
    } else {
        StartVerdict::Proceed
    }
}

/// The start check as the front end sees it: refused with `AlreadyRunning`
/// or `PortInUse`, before any port is probed.
pub fn admit_start(registry: &Registry, config: &ProxyConfig) -> (r: Result<(), CommandError>)
    ensures
        start_verdict_of(registry.ids(), config.id@, config.listen_port) == StartVerdict::Proceed
            ==> r is Ok,
        start_verdict_of(registry.ids(), config.id@, config.listen_port) == StartVerdict::AlreadyRunning
            ==> r is Err && r->Err_0 is AlreadyRunning && r->Err_0->AlreadyRunning_0@ == config.id@,
        start_verdict_of(registry.ids(), config.id@, config.listen_port) == StartVerdict::PortUnavailable
            ==> r == Err::<(), CommandError>(CommandError::PortInUse(config.listen_port)),
{
    match check_start(registry, config) {
        StartVerdict::Proceed => Ok(()),
        StartVerdict::AlreadyRunning => Err(CommandError::AlreadyRunning(config.id.clone())),
        StartVerdict::PortUnavailable => Err(CommandError::PortInUse(config.listen_port)),
    }
}

/// `ip:port` as text.
pub fn listen_address_of(ip: &str, port: u16) -> (r: String)
    ensures
        r@ == ip@ + ":"@ + decimal(port as nat),
{
    let mut r = joined(ip, ":");
    let digits = u16_text(port);
    r.append(digits.as_str());
    r
}

/// The configuration a started endpoint runs with: its listen address
/// filled in and marked running. Refused when the port is zero, which is
/// never available, or when the probe found the port taken.
pub fn running_config(config: &ProxyConfig, port_free: bool) -> (r: Result<ProxyConfig, CommandError>)
    ensures
        config.listen_port == 0 || !port_free ==> r == Err::<ProxyConfig, CommandError>(
            CommandError::PortInUse(config.listen_port),
        ),
        config.listen_port != 0 && port_free ==> r is Ok && crate::config::same_config(
            r->Ok_0,
            ProxyConfig { listen_address: r->Ok_0.listen_address, is_running: true, ..*config },
        ) && r->Ok_0.listen_address@ == config.listen_ip@ + ":"@ + decimal(config.listen_port as nat),
{
    if config.listen_port == 0 || !port_free {
        return Err(CommandError::PortInUse(config.listen_port));
    }
    let mut c = config.duplicate();
    c.listen_address = listen_address_of(config.listen_ip.as_str(), config.listen_port);
    c.is_running = true;
    Ok(c)
}

/// Whether a port check is made at all: only on the loopback or the wildcard
/// address, and never for port zero.
pub fn port_probe_allowed(ip: &String, port: u16) -> (r: bool)
    ensures
        r == (port != 0 && (ip@ == "127.0.0.1"@ || ip@ == "0.0.0.0"@)),
{
    if port == 0 {
        return false;
    }
    let loopback = String::from_str("127.0.0.1");
    let wildcard = String::from_str("0.0.0.0");
    *ip == loopback || *ip == wildcard
}

/// Takes the endpoint with identifier `id` out of the registry to stop it;
/// refused with `NotRunning` when none runs.
pub fn take_running(registry: &mut Registry, id: &String) -> (r: Result<ProxyInstance, CommandError>)
    ensures
        final(registry).wf(),
        !old(registry).ids().contains(id@) ==> r is Err && r->Err_0 is NotRunning
            && r->Err_0->NotRunning_0@ == id@ && final(registry)@ == old(registry)@,
        old(registry).ids().contains(id@) ==> exists|k: int|
            0 <= k < old(registry)@.len() && old(registry).ids()[k] == id@ && r == Ok::<
                ProxyInstance,
                CommandError,
            >(old(registry)@[k]) && final(registry)@ == #[trigger] old(registry)@.remove(k),
{
    match registry.remove(id) {
        Some(e) => Ok(e),
        None => Err(CommandError::NotRunning(id.clone())),
    }
}

/// How waiting for a stopped server task ended.
#[derive(Debug)]
pub enum StopWait {
    /// The task finished.
    Finished,
    /// The task ended abnormally; holds the cause.
    TaskFailed(String),
    /// The task did not finish within the stop timeout.
    TimedOut,
}

/// The result of a stop: a task that failed is reported; one that finished
/// or outlived the timeout counts as stopped.
pub fn stop_outcome(wait: StopWait) -> (r: Result<(), ProxyError>)
    ensures
        wait is Finished ==> r is Ok,
        wait is TimedOut ==> r is Ok,
        wait is TaskFailed ==> r is Err && r->Err_0 is StopError
            && r->Err_0->StopError_0@ == "Task error: "@ + wait->TaskFailed_0@,
{
    match wait {
        StopWait::Finished => Ok(()),
        StopWait::TaskFailed(e) => Err(ProxyError::StopError(joined("Task error: ", e.as_str()))),
        StopWait::TimedOut => Ok(()),
    }
}

/// What a stop does next while it waits for the server task.
#[derive(Debug, Clone, Copy, PartialEq, Eq, Structural)]
pub enum StopStep {
    /// Sleep this many milliseconds, then look again.
    Wait(u64),
    /// The task has finished: collect its result.
    Join,
    /// The timeout has passed: count the endpoint as stopped.
    GiveUp,
}

pub open spec fn stop_step_of(elapsed_ms: u64, finished: bool) -> StopStep {
    if finished {
        StopStep::Join
    } else if elapsed_ms >= STOP_TIMEOUT_MS {
        StopStep::GiveUp
    } else if STOP_TIMEOUT_MS - elapsed_ms < STOP_POLL_MS {
        StopStep::Wait((STOP_TIMEOUT_MS - elapsed_ms) as u64)
    } else {
        StopStep::Wait(STOP_POLL_MS)
    }
}

/// The next step of a stop, `elapsed_ms` after the signal was sent: join a
/// finished task, give up once the timeout has passed, else sleep, never
/// past the timeout.
pub fn stop_step(elapsed_ms: u64, finished: bool) -> (r: StopStep)
    ensures
        r == stop_step_of(elapsed_ms, finished),
{
    if finished {
        StopStep::Join
    } else if elapsed_ms >= STOP_TIMEOUT_MS {
        StopStep::GiveUp
    } else if STOP_TIMEOUT_MS - elapsed_ms < STOP_POLL_MS {
        StopStep::Wait(STOP_TIMEOUT_MS - elapsed_ms)
    } else {
        StopStep::Wait(STOP_POLL_MS)
    }
}

/// The time slept after `n` steps of a stop whose task never finishes.
pub open spec fn waited_without_answer(n: nat) -> nat
    decreases n,
{
    if n == 0 {
        0
    } else {
        let e = waited_without_answer((n - 1) as nat);
        match stop_step_of(e as u64, false) {
            StopStep::Wait(ms) => (e + ms) as nat,
            _ => e,
        }
    }
}

/// A stop whose server task never answers sleeps no longer than the stop
/// timeout in all, and gives up after a bounded number of steps.
pub proof fn lemma_stop_wait_bounded(n: nat)
    ensures
        waited_without_answer(n) == if n * STOP_POLL_MS >= STOP_TIMEOUT_MS {
            STOP_TIMEOUT_MS as nat
        } else {
            (n * STOP_POLL_MS) as nat
        },
        waited_without_answer(n) <= STOP_TIMEOUT_MS,
        n >= STOP_TIMEOUT_MS / STOP_POLL_MS ==> stop_step_of(waited_without_answer(n) as u64, false)
            == StopStep::GiveUp,
    decreases n,
{
    if n > 0 {
        lemma_stop_wait_bounded((n - 1) as nat);
        assert((n - 1) * STOP_POLL_MS + STOP_POLL_MS == n * STOP_POLL_MS) by (nonlinear_arith);
    }
    if n >= STOP_TIMEOUT_MS / STOP_POLL_MS {
        assert(n * STOP_POLL_MS >= STOP_TIMEOUT_MS) by (nonlinear_arith)
            requires n >= 100;
    }
}

/// Starting an identifier that just started is refused, and it then runs
/// exactly once.
pub proof fn lemma_start_twice(running: Seq<Seq<char>>, id: Seq<char>, port: u16)
    requires
        running.no_duplicates(),
        start_verdict_of(running, id, port) == StartVerdict::Proceed,
    ensures
        running.push(id).no_duplicates(),
        running.push(id).contains(id),
        start_verdict_of(running.push(id), id, port) == StartVerdict::AlreadyRunning,
{
    let s = running.push(id);
    assert(s[running.len() as int] == id);
    assert forall|i: int, j: int| 0 <= i < s.len() && 0 <= j < s.len() && i != j implies s[i] != s[j] by {
        if i < running.len() && j < running.len() {
            assert(s[i] == running[i] && s[j] == running[j]);
        } else if i < running.len() {
            assert(s[i] == running[i]);
        } else {
            assert(s[j] == running[j]);
        }
    }
}

/// Once an endpoint is stopped, its identifier may start again on any
/// nonzero port.
pub proof fn lemma_stop_then_start(running: Seq<Seq<char>>, k: int, port: u16)
    requires
        running.no_duplicates(),
        0 <= k < running.len(),
        port != 0,
    ensures
        start_verdict_of(running.remove(k), running[k], port) == StartVerdict::Proceed,
{
    let s = running.remove(k);
    if s.contains(running[k]) {
        let i = choose|i: int| 0 <= i < s.len() && s[i] == running[k];
        let i2 = if i < k { i } else { i + 1 };
        assert(s[i] == running[i2]);
    }
}

} // verus!
