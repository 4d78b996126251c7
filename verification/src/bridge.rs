//! The runtime bridge itself: one execution environment, one job queue in
//! front of it, one proxy registry inside it, one module resolver and one
//! preprocessing target dialect — sequenced by the startup state machine.
//! External requests are accepted only in the serving phase; a failed entry
//! module load keeps the bridge out of that phase for good.

use vstd::prelude::*;
use vstd::pervasive::unreached;
use crate::errors::{DispatchError, EnvError, InstallError, LoadError, ResolveError};
use crate::proxy::{has_target, registry_wf, ProxyDefinition, Registry};
use crate::queue::{JobMessage, JobQueue};
use crate::resolver::{plan_result_model, resolve_model, Dialect, FetchPlan, Resolver};
use crate::values::{ScriptValue, ValueModel};

verus! {

/// The bridge's lifecycle phase.
#[derive(Clone, Copy, Debug, PartialEq, Eq, Structural)]
pub enum Phase {
    Uninitialized,
    Configuring,
    ProxiesInstalled,
    ModulesLoaded,
    Serving,
    Draining,
}

/// The allowed phase transitions: the lifecycle only moves forward, one
/// phase at a time.
pub open spec fn phase_step(pre: Phase, post: Phase) -> bool {
    ||| pre == post
    ||| (pre == Phase::Uninitialized && post == Phase::Configuring)
    ||| (pre == Phase::Configuring && post == Phase::ProxiesInstalled)
    ||| (pre == Phase::ProxiesInstalled && post == Phase::ModulesLoaded)
    ||| (pre == Phase::ModulesLoaded && post == Phase::Serving)
    ||| (pre == Phase::Serving && post == Phase::Draining)
}

/// The serving phase is reached only from a successful entry module load:
/// a bridge whose entry module never evaluated cannot start serving.
pub proof fn law_serving_needs_modules_loaded(pre: Phase, post: Phase)
    requires
        phase_step(pre, post),
        post is Serving,
        !(pre is Serving),
    ensures
        pre is ModulesLoaded,
{
}

/// The whole bridge: every component the spec's startup sequence fixes.
pub struct Bridge {
    pub phase: Phase,
    pub queue: JobQueue,
    pub registry: Registry,
    pub resolver: Resolver,
    pub target_dialect: Dialect,
}

impl Bridge {
    /// The bridge's invariant: its queue accounts for every job, its
    /// registry holds each path at most once, and the queue accepts work
    /// exactly until draining begins.
    pub open spec fn wf(self) -> bool {
        &&& self.queue.wf()
        &&& registry_wf(self.registry.proxies@)
        &&& self.queue.accepting == !(self.phase is Draining)
    }

    /// A fresh bridge: nothing configured, nothing installed, nothing run.
    pub fn new() -> (b: Bridge)
        ensures
            b.wf(),
            b.phase is Uninitialized,
            b.queue.pending@.len() == 0,
            b.queue.running is None,
            b.queue.executed@.len() == 0,
            b.queue.next_id == 0,
            b.registry.proxies@.len() == 0,
            b.resolver.strategies@.len() == 0,
    {
        Bridge {
            phase: Phase::Uninitialized,
            queue: JobQueue::new(),
            registry: Registry::new(),
            resolver: Resolver::new(),
            target_dialect: Dialect::Es2020,
        }
    }

    /// Fixes the loader strategies and the preprocessing target dialect.
    /// With that the configuration is complete and immutable.
    pub fn configure(&mut self, resolver: Resolver, target_dialect: Dialect)
        requires
            old(self).wf(),
            old(self).phase is Uninitialized,
        ensures
            final(self).wf(),
            phase_step(old(self).phase, final(self).phase),
            final(self).phase is Configuring,
            final(self).resolver.strategies@ == resolver.strategies@,
            final(self).target_dialect == target_dialect,
            final(self).queue == old(self).queue,
            final(self).registry.proxies@ == old(self).registry.proxies@,
    {
        self.resolver = resolver;
        self.target_dialect = target_dialect;
        self.phase = Phase::Configuring;
    }

    /// Installs one proxy definition through a blocking job: the job is
    /// enqueued, runs alone against the environment, and its result comes
    /// back to this one caller. Re-installation at an occupied namespace
    /// path + object name fails and leaves every installed proxy — methods,
    /// listeners and all — exactly as it was.
    pub fn install_proxy(&mut self, def: ProxyDefinition) -> (r: Result<(), InstallError>)
        requires
            old(self).wf(),
            old(self).phase is Configuring,
            old(self).queue.pending@.len() == 0,
            old(self).queue.running is None,
            old(self).queue.next_id < u64::MAX,
        ensures
            final(self).wf(),
            phase_step(old(self).phase, final(self).phase),
            final(self).phase is Configuring,
            final(self).queue.pending@.len() == 0,
            final(self).queue.running is None,
            final(self).queue.next_id == old(self).queue.next_id + 1,
            final(self).queue.executed@ == old(self).queue.executed@.push(
                old(self).queue.next_id,
            ),
            final(self).resolver.strategies@ == old(self).resolver.strategies@,
            has_target(old(self).registry.proxies@, def.namespace.deep_view(), def.name@) ==> {
                &&& r == Result::<(), InstallError>::Err(InstallError::DuplicatePath)
                &&& final(self).registry.proxies@ == old(self).registry.proxies@
            },
            !has_target(old(self).registry.proxies@, def.namespace.deep_view(), def.name@) ==> {
                &&& r == Result::<(), InstallError>::Ok(())
                &&& final(self).registry.proxies@.len() == old(self).registry.proxies@.len() + 1
                &&& (forall|i: int|
                    0 <= i < old(self).registry.proxies@.len() ==> final(self).registry.proxies@[i]
                        == old(self).registry.proxies@[i])
                &&& final(self).registry.proxies@[old(self).registry.proxies@.len() as int].def
                    == def
            },
    {
        let enq = self.queue.enqueue(JobMessage::InstallProxy(def));
        match enq {
            Result::Err(_) => unreached(),
            Result::Ok(_) => {},
        }
        let job = self.queue.begin_next();
        match job {
            Option::None => unreached(),
            Option::Some(j) => {
                match j.message {
                    JobMessage::InstallProxy(d) => {
                        let res = self.registry.install(d);
                        self.queue.finish_running();
                        res
                    },
                    _ => unreached(),
                }
            },
        }
    }

    /// Declares proxy installation complete: every proxy definition has gone
    /// through one successful `install_proxy` job. External requests are
    /// still not accepted.
    pub fn finish_installation(&mut self)
        requires
            old(self).wf(),
            old(self).phase is Configuring,
        ensures
            final(self).wf(),
            phase_step(old(self).phase, final(self).phase),
            final(self).phase is ProxiesInstalled,
            final(self).queue == old(self).queue,
            final(self).registry.proxies@ == old(self).registry.proxies@,
            final(self).resolver.strategies@ == old(self).resolver.strategies@,
    {
        self.phase = Phase::ProxiesInstalled;
    }

    /// Decides which strategy claims a module identifier and what it would
    /// fetch — the security policy runs here, before any fetch, and the
    /// decision is exactly the resolution model's.
    pub fn plan_fetch(&self, identifier: &Vec<u8>) -> (r: Result<FetchPlan, ResolveError>)
        ensures
            plan_result_model(r) == resolve_model(self.resolver.strategies@, identifier@),
    {
        self.resolver.resolve(identifier)
    }

    /// Records the outcome of evaluating the designated entry module through
    /// a blocking job. On success the bridge may start serving; on failure —
    /// resolution, preprocessing or evaluation — it never reaches the
    /// serving phase, and the error goes back to the one caller.
    pub fn load_entry_module(&mut self, identifier: Vec<u8>, outcome: Result<(), LoadError>) -> (r:
        Result<(), LoadError>)
        requires
            old(self).wf(),
            old(self).phase is ProxiesInstalled,
            old(self).queue.pending@.len() == 0,
            old(self).queue.running is None,
            old(self).queue.next_id < u64::MAX,
        ensures
            final(self).wf(),
            phase_step(old(self).phase, final(self).phase),
            final(self).queue.pending@.len() == 0,
            final(self).queue.running is None,
            final(self).queue.next_id == old(self).queue.next_id + 1,
            final(self).queue.executed@ == old(self).queue.executed@.push(
                old(self).queue.next_id,
            ),
            final(self).registry.proxies@ == old(self).registry.proxies@,
            final(self).resolver.strategies@ == old(self).resolver.strategies@,
            outcome is Ok ==> final(self).phase is ModulesLoaded && r is Ok,
            outcome matches Result::Err(e) ==> final(self).phase is ProxiesInstalled && r
                == Result::<(), LoadError>::Err(e),
    {
        let enq = self.queue.enqueue(JobMessage::EvaluateModule { identifier });
        match enq {
            Result::Err(_) => unreached(),
            Result::Ok(_) => {},
        }
        let job = self.queue.begin_next();
        match job {
            Option::None => unreached(),
            Option::Some(_) => {},
        }
        self.queue.finish_running();
        match outcome {
            Result::Ok(()) => {
                self.phase = Phase::ModulesLoaded;
                Result::Ok(())
            },
            Result::Err(e) => Result::Err(e),
        }
    }

    /// Opens the bridge for external requests.
    pub fn start_serving(&mut self)
        requires
            old(self).wf(),
            old(self).phase is ModulesLoaded,
        ensures
            final(self).wf(),
            phase_step(old(self).phase, final(self).phase),
            final(self).phase is Serving,
            final(self).queue == old(self).queue,
            final(self).registry.proxies@ == old(self).registry.proxies@,
            final(self).resolver.strategies@ == old(self).resolver.strategies@,
    {
        self.phase = Phase::Serving;
    }

    /// Whether external dispatch jobs are accepted right now.
    pub fn accepts_requests(&self) -> (r: bool)
        ensures
            r == (self.phase is Serving),
    {
        matches!(self.phase, Phase::Serving)
    }

    /// The front end's per-request step: enqueue one event dispatch job and
    /// hand back its queue number for the caller to await. Outside the
    /// serving phase nothing is enqueued and the terminal error comes back.
    pub fn enqueue_request_dispatch(
        &mut self,
        namespace: Vec<String>,
        name: String,
        event: String,
        payload: ScriptValue,
    ) -> (r: Result<u64, EnvError>)
        requires
            old(self).wf(),
            old(self).queue.next_id < u64::MAX,
        ensures
            final(self).wf(),
            phase_step(old(self).phase, final(self).phase),
            final(self).phase == old(self).phase,
            final(self).registry.proxies@ == old(self).registry.proxies@,
            final(self).resolver.strategies@ == old(self).resolver.strategies@,
            old(self).phase is Serving ==> {
                &&& r == Result::<u64, EnvError>::Ok(old(self).queue.next_id)
                &&& final(self).queue.pending@ == old(self).queue.pending@.push(
                    crate::queue::Job {
                        id: old(self).queue.next_id,
                        message: JobMessage::DispatchEvent { namespace, name, event, payload },
                    },
                )
                &&& final(self).queue.next_id == old(self).queue.next_id + 1
                &&& final(self).queue.executed@ == old(self).queue.executed@
                &&& final(self).queue.running == old(self).queue.running
            },
            !(old(self).phase is Serving) ==> {
                &&& r == Result::<u64, EnvError>::Err(EnvError::Unavailable)
                &&& final(self).queue == old(self).queue
            },
    {
        if !matches!(self.phase, Phase::Serving) {
            return Result::Err(EnvError::Unavailable);
        }
        self.queue.enqueue(JobMessage::DispatchEvent { namespace, name, event, payload })
    }

    /// Begins shutdown: no new jobs are accepted, jobs already enqueued
    /// still run to completion before the process exits.
    pub fn begin_draining(&mut self)
        requires
            old(self).wf(),
            old(self).phase is Serving,
        ensures
            final(self).wf(),
            phase_step(old(self).phase, final(self).phase),
            final(self).phase is Draining,
            !final(self).queue.accepting,
            final(self).queue.pending@ == old(self).queue.pending@,
            final(self).queue.running == old(self).queue.running,
            final(self).queue.executed@ == old(self).queue.executed@,
            final(self).registry.proxies@ == old(self).registry.proxies@,
    {
        self.phase = Phase::Draining;
        self.queue.stop_accepting();
    }
}

/// The decision half of the sample `printSomething` host method: when the
/// first argument is a script string, that string is to be logged; the value
/// returned to script is always `undefined`. The caller performs the logging
/// itself — this function only decides.
pub fn print_something_action(args: &Vec<ScriptValue>) -> (r: (Option<String>, ScriptValue))
    ensures
        r.1@ == ValueModel::Undefined,
        match r.0 {
            Option::Some(s) => args@.len() > 0 && args@[0]@ == ValueModel::Str(s@),
            Option::None => args@.len() == 0 || !(args@[0]@ is Str),
        },
{
    if args.len() > 0 {
        match args[0].as_str() {
            Option::Some(s) => {
                let logged = s.clone();
                return (Option::Some(logged), ScriptValue::Undefined);
            },
            Option::None => {},
        }
    }
    (Option::None, ScriptValue::Undefined)
}

/// A host method that hands its first argument back unchanged — the identity
/// round trip: what the script passed in is exactly what it gets back.
pub fn echo_first(args: &Vec<ScriptValue>) -> (r: ScriptValue)
    ensures
        args@.len() > 0 ==> r@ == args@[0]@,
        args@.len() == 0 ==> r@ == ValueModel::Undefined,
{
    if args.len() > 0 {
        args[0].clone()
    } else {
        ScriptValue::Undefined
    }
}

/// The bridge hands a host method's result to the calling script without any
/// coercion: a returned value comes back identical, a host-side failure
/// propagates as the script-visible error value it raised.
pub fn complete_method_call(outcome: Result<ScriptValue, ScriptValue>) -> (r: Result<
    ScriptValue,
    EnvError,
>)
    ensures
        match outcome {
            Result::Ok(v) => r matches Result::Ok(w) && w == v,
            Result::Err(e) => r == Result::<ScriptValue, EnvError>::Err(EnvError::ScriptRaised(e)),
        },
{
    match outcome {
        Result::Ok(v) => Result::Ok(v),
        Result::Err(e) => Result::Err(EnvError::ScriptRaised(e)),
    }
}

/// The front end's answer policy: every request is answered with the same
/// fixed success body, whatever the dispatch outcome; a failed dispatch is
/// only logged. The second component says whether the outcome is to be
/// logged as an error.
pub fn response_for_dispatch(outcome: &Result<bool, DispatchError>) -> (r: (String, bool))
    ensures
        r.0@ == "hello there"@,
        r.1 == (outcome is Err),
{
    let body: String = "hello there".to_owned();
    (body, matches!(outcome, Result::Err(_)))
}

} // verus!
