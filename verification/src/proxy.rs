//! The host-object proxy bridge: declarative proxy definitions (namespace
//! path, object name, host methods, optional event-target capability),
//! installed at most once per namespace path + object name; event listeners
//! kept per proxy in registration order with O(1) removal by handle; and the
//! vetoable event dispatch protocol. Listener bodies run inside the execution
//! environment, so dispatch is an explicit protocol: the bridge names the next
//! listener to invoke, the environment reports whether that listener vetoed,
//! and the bridge stops at the first veto.

use vstd::prelude::*;
use crate::errors::{DispatchError, InstallError};
use crate::values::{ScriptValue, ValueModel};

verus! {

/// One host method of a proxy: its script-visible name and an opaque
/// reference to the host callback that the embedder runs for it.
pub struct MethodDef {
    pub name: String,
    pub host_fn: u64,
}

/// A declarative description of one namespaced host object.
pub struct ProxyDefinition {
    /// Ordered namespace path, e.g. the two components of `com.mycompany`.
    pub namespace: Vec<String>,
    /// Object name under the namespace path.
    pub name: String,
    /// Host methods, in declaration order.
    pub methods: Vec<MethodDef>,
    /// Whether script may add listeners and events may be dispatched here.
    pub event_target: bool,
}

/// One listener registration. A removed listener leaves a dead slot behind,
/// so a handle is an index that stays stable and removal is O(1).
pub struct ListenerSlot {
    pub event: String,
    /// Opaque reference to the script-side listener function.
    pub target: u64,
    pub live: bool,
}

/// One installed proxy: its definition and its listener slots.
pub struct InstalledProxy {
    pub def: ProxyDefinition,
    pub listeners: Vec<ListenerSlot>,
}

/// All proxies installed into the execution environment's global scope.
pub struct Registry {
    pub proxies: Vec<InstalledProxy>,
}

/// The definition is bound at exactly this namespace path and object name.
pub open spec fn same_path(def: ProxyDefinition, ns: Seq<Seq<char>>, name: Seq<char>) -> bool {
    def.namespace.deep_view() == ns && def.name@ == name
}

/// Some installed proxy is bound at this namespace path and object name.
pub open spec fn has_target(
    proxies: Seq<InstalledProxy>,
    ns: Seq<Seq<char>>,
    name: Seq<char>,
) -> bool {
    exists|i: int| 0 <= i < proxies.len() && same_path(#[trigger] proxies[i].def, ns, name)
}

/// Namespace path + object name is unique within the environment.
pub open spec fn registry_wf(proxies: Seq<InstalledProxy>) -> bool {
    forall|i: int, j: int|
        0 <= i < j < proxies.len() ==> !(same_path(
            #[trigger] proxies[i].def,
            #[trigger] proxies[j].def.namespace.deep_view(),
            proxies[j].def.name@,
        ))
}

/// The host callback bound to the first method of this name, if any.
pub open spec fn method_resolves(methods: Seq<MethodDef>, m: Seq<char>) -> Option<u64>
    decreases methods.len(),
{
    if methods.len() == 0 {
        Option::None
    } else if methods[0].name@ == m {
        Option::Some(methods[0].host_fn)
    } else {
        method_resolves(methods.drop_first(), m)
    }
}

/// The live listeners for one event name, in registration order.
pub open spec fn live_targets(slots: Seq<ListenerSlot>, ev: Seq<char>) -> Seq<u64>
    decreases slots.len(),
{
    if slots.len() == 0 {
        Seq::empty()
    } else {
        let rest = live_targets(slots.drop_first(), ev);
        if slots[0].live && slots[0].event@ == ev {
            seq![slots[0].target] + rest
        } else {
            rest
        }
    }
}

/// Registering one more listener extends the live listeners of its own event
/// at the end, and leaves every other event's listeners unchanged.
pub proof fn lemma_live_targets_push(slots: Seq<ListenerSlot>, s: ListenerSlot, ev: Seq<char>)
    ensures
        live_targets(slots.push(s), ev) == if s.live && s.event@ == ev {
            live_targets(slots, ev).push(s.target)
        } else {
            live_targets(slots, ev)
        },
    decreases slots.len(),
{
    if slots.len() == 0 {
        assert(slots.push(s).drop_first() =~= Seq::<ListenerSlot>::empty());
        assert(live_targets(slots.push(s).drop_first(), ev) == Seq::<u64>::empty());
        if s.live && s.event@ == ev {
            assert(live_targets(slots.push(s), ev) =~= live_targets(slots, ev).push(s.target));
        } else {
            assert(live_targets(slots.push(s), ev) =~= live_targets(slots, ev));
        }
    } else {
        assert(slots.push(s).drop_first() =~= slots.drop_first().push(s));
        lemma_live_targets_push(slots.drop_first(), s, ev);
        assert(slots.push(s)[0] == slots[0]);
        assert(live_targets(slots.push(s), ev) == if slots[0].live && slots[0].event@ == ev {
            seq![slots[0].target] + live_targets(slots.drop_first().push(s), ev)
        } else {
            live_targets(slots.drop_first().push(s), ev)
        });
        if s.live && s.event@ == ev {
            if slots[0].live && slots[0].event@ == ev {
                assert(live_targets(slots.push(s), ev) =~= live_targets(slots, ev).push(s.target));
            } else {
                assert(live_targets(slots.push(s), ev) =~= live_targets(slots, ev).push(s.target));
            }
        } else {
            assert(live_targets(slots.push(s), ev) =~= live_targets(slots, ev));
        }
    }
}

/// A successful installation occupies its namespace path + object name:
/// together with `Registry::install`'s contract, every later installation at
/// the same path fails with `DuplicatePath` and leaves the registry — and so
/// the first installation's methods and listeners — exactly as they were.
pub proof fn law_install_occupies_path(
    pre: Seq<InstalledProxy>,
    post: Seq<InstalledProxy>,
    def: ProxyDefinition,
)
    requires
        post.len() == pre.len() + 1,
        post[pre.len() as int].def == def,
    ensures
        has_target(post, def.namespace.deep_view(), def.name@),
{
    assert(same_path(post[pre.len() as int].def, def.namespace.deep_view(), def.name@));
}

/// In a well-formed registry at most one proxy is bound at a path.
pub proof fn lemma_unique_target(
    proxies: Seq<InstalledProxy>,
    ns: Seq<Seq<char>>,
    name: Seq<char>,
    a: int,
    b: int,
)
    requires
        registry_wf(proxies),
        0 <= a < proxies.len(),
        0 <= b < proxies.len(),
        same_path(proxies[a].def, ns, name),
        same_path(proxies[b].def, ns, name),
    ensures
        a == b,
{
    if a < b {
        assert(proxies[b].def.namespace.deep_view() == ns);
    } else if b < a {
        assert(proxies[a].def.namespace.deep_view() == ns);
    }
}

/// Whether two namespace paths are the same sequence of identifiers.
fn paths_equal(a: &Vec<String>, b: &Vec<String>) -> (r: bool)
    ensures
        r == (a.deep_view() == b.deep_view()),
{
    if a.len() != b.len() {
        proof {
            assert(a.deep_view().len() == a@.len());
            assert(b.deep_view().len() == b@.len());
        }
        return false;
    }
    let mut i: usize = 0;
    while i < a.len()
        invariant
            a@.len() == b@.len(),
            0 <= i <= a@.len(),
            forall|j: int| 0 <= j < i ==> a.deep_view()[j] == b.deep_view()[j],
        decreases a@.len() - i,
    {
        if a[i] != b[i] {
            proof {
                assert(a.deep_view()[i as int] == a@[i as int]@);
                assert(b.deep_view()[i as int] == b@[i as int]@);
            }
            return false;
        }
        proof {
            assert(a.deep_view()[i as int] == a@[i as int]@);
            assert(b.deep_view()[i as int] == b@[i as int]@);
        }
        i = i + 1;
    }
    proof {
        assert(a.deep_view() =~= b.deep_view());
    }
    true
}

impl Registry {
    /// An environment with nothing installed.
    pub fn new() -> (r: Registry)
        ensures
            r.proxies@.len() == 0,
            registry_wf(r.proxies@),
    {
        Registry { proxies: Vec::new() }
    }

    /// The index of the proxy bound at this path, if one is.
    pub fn lookup(&self, ns: &Vec<String>, name: &String) -> (r: Option<usize>)
        ensures
            match r {
                Option::Some(i) => 0 <= i < self.proxies@.len() && same_path(
                    self.proxies@[i as int].def,
                    ns.deep_view(),
                    name@,
                ),
                Option::None => !has_target(self.proxies@, ns.deep_view(), name@),
            },
    {
        let mut i: usize = 0;
        while i < self.proxies.len()
            invariant
                0 <= i <= self.proxies@.len(),
                forall|j: int|
                    0 <= j < i ==> !same_path(
                        #[trigger] self.proxies@[j].def,
                        ns.deep_view(),
                        name@,
                    ),
            decreases self.proxies@.len() - i,
        {
            let p = &self.proxies[i];
            if paths_equal(&p.def.namespace, ns) && p.def.name == *name {
                return Option::Some(i);
            }
            i = i + 1;
        }
        Option::None
    }

    /// Binds a proxy definition into the global scope. Re-installation at an
    /// already occupied namespace path + object name is rejected and leaves
    /// the environment unchanged — in particular, the first installation's
    /// methods and listeners stay exactly as they were.
    pub fn install(&mut self, def: ProxyDefinition) -> (r: Result<(), InstallError>)
        requires
            registry_wf(old(self).proxies@),
        ensures
            registry_wf(final(self).proxies@),
            has_target(old(self).proxies@, def.namespace.deep_view(), def.name@) ==> {
                &&& r == Result::<(), InstallError>::Err(InstallError::DuplicatePath)
                &&& final(self).proxies@ == old(self).proxies@
            },
            !has_target(old(self).proxies@, def.namespace.deep_view(), def.name@) ==> {
                &&& r == Result::<(), InstallError>::Ok(())
                &&& final(self).proxies@.len() == old(self).proxies@.len() + 1
                &&& (forall|i: int|
                    0 <= i < old(self).proxies@.len() ==> final(self).proxies@[i] == old(
                        self,
                    ).proxies@[i])
                &&& final(self).proxies@[old(self).proxies@.len() as int].def == def
                &&& final(self).proxies@[old(self).proxies@.len() as int].listeners@
                    =~= Seq::<ListenerSlot>::empty()
            },
    {
        match self.lookup(&def.namespace, &def.name) {
            Option::Some(_) => Result::Err(InstallError::DuplicatePath),
            Option::None => {
                self.proxies.push(InstalledProxy { def, listeners: Vec::new() });
                Result::Ok(())
            },
        }
    }

    /// The host callback bound to a method of an installed proxy: the first
    /// method of that name on the proxy at that path.
    pub fn method_target(&self, ns: &Vec<String>, name: &String, method: &String) -> (r: Option<
        u64,
    >)
        requires
            registry_wf(self.proxies@),
        ensures
            match r {
                Option::Some(f) => exists|i: int|
                    0 <= i < self.proxies@.len() && same_path(
                        #[trigger] self.proxies@[i].def,
                        ns.deep_view(),
                        name@,
                    ) && method_resolves(self.proxies@[i].def.methods@, method@) == Option::Some(
                        f,
                    ),
                Option::None => forall|i: int|
                    (0 <= i < self.proxies@.len() && same_path(
                        #[trigger] self.proxies@[i].def,
                        ns.deep_view(),
                        name@,
                    )) ==> method_resolves(self.proxies@[i].def.methods@, method@) is None,
            },
    {
        match self.lookup(ns, name) {
            Option::None => Option::None,
            Option::Some(i) => {
                let methods = &self.proxies[i].def.methods;
                let mut k: usize = 0;
                proof {
                    assert(methods@.skip(0) =~= methods@);
                }
                while k < methods.len()
                    invariant
                        0 <= k <= methods@.len(),
                        i < self.proxies@.len(),
                        same_path(self.proxies@[i as int].def, ns.deep_view(), name@),
                        methods@ == self.proxies@[i as int].def.methods@,
                        method_resolves(methods@, method@) == method_resolves(
                            methods@.skip(k as int),
                            method@,
                        ),
                    decreases methods@.len() - k,
                {
                    proof {
                        assert(methods@.skip(k as int)[0] == methods@[k as int]);
                        assert(methods@.skip(k as int).drop_first() =~= methods@.skip(
                            k as int + 1,
                        ));
                    }
                    if methods[k].name == *method {
                        proof {
                            assert(method_resolves(methods@.skip(k as int), method@)
                                == Option::Some(methods@[k as int].host_fn));
                            assert(same_path(self.proxies@[i as int].def, ns.deep_view(), name@));
                        }
                        return Option::Some(methods[k].host_fn);
                    }
                    k = k + 1;
                }
                proof {
                    assert(methods@.skip(methods@.len() as int) =~= Seq::<MethodDef>::empty());
                    assert(method_resolves(self.proxies@[i as int].def.methods@, method@)
                        is None);
                    assert forall|j: int|
                        0 <= j < self.proxies@.len() && same_path(
                            #[trigger] self.proxies@[j].def,
                            ns.deep_view(),
                            name@,
                        ) implies j == i as int by {
                        lemma_unique_target(self.proxies@, ns.deep_view(), name@, i as int, j);
                    };
                }
                Option::None
            },
        }
    }

    /// Registers a listener for one event of an event-target proxy and hands
    /// back its removal handle. Fails on a path with no proxy, and on a proxy
    /// installed without the event-target capability.
    pub fn add_event_listener(
        &mut self,
        ns: &Vec<String>,
        name: &String,
        event: String,
        target: u64,
    ) -> (r: Result<usize, DispatchError>)
        ensures
            match r {
                Result::Ok(h) => exists|i: int|
                    {
                        &&& 0 <= i < old(self).proxies@.len()
                        &&& same_path(#[trigger] old(self).proxies@[i].def, ns.deep_view(), name@)
                        &&& old(self).proxies@[i].def.event_target
                        &&& h == old(self).proxies@[i].listeners@.len()
                        &&& final(self).proxies@[i].def == old(self).proxies@[i].def
                        &&& final(self).proxies@[i].listeners@ == old(
                            self,
                        ).proxies@[i].listeners@.push(
                            ListenerSlot { event: event, target: target, live: true },
                        )
                        &&& (forall|j: int|
                            0 <= j < old(self).proxies@.len() && j != i
                                ==> final(self).proxies@[j] == old(self).proxies@[j])
                        &&& final(self).proxies@.len() == old(self).proxies@.len()
                        &&& live_targets(final(self).proxies@[i].listeners@, event@)
                            == live_targets(old(self).proxies@[i].listeners@, event@).push(target)
                        &&& (forall|e: Seq<char>|
                            e != event@ ==> #[trigger] live_targets(
                                final(self).proxies@[i].listeners@,
                                e,
                            ) == live_targets(old(self).proxies@[i].listeners@, e))
                    },
                Result::Err(DispatchError::UnknownTarget) => {
                    &&& !has_target(old(self).proxies@, ns.deep_view(), name@)
                    &&& final(self).proxies@ == old(self).proxies@
                },
                Result::Err(DispatchError::NotEventTarget) => {
                    &&& exists|i: int|
                        0 <= i < old(self).proxies@.len() && same_path(
                            #[trigger] old(self).proxies@[i].def,
                            ns.deep_view(),
                            name@,
                        ) && !old(self).proxies@[i].def.event_target
                    &&& final(self).proxies@ == old(self).proxies@
                },
                Result::Err(DispatchError::ListenerFailed(_)) => false,
            },
    {
        match self.lookup(ns, name) {
            Option::None => Result::Err(DispatchError::UnknownTarget),
            Option::Some(i) => {
                if !self.proxies[i].def.event_target {
                    proof {
                        assert(same_path(
                            self.proxies@[i as int].def,
                            ns.deep_view(),
                            name@,
                        ) && !self.proxies@[i as int].def.event_target);
                    }
                    Result::Err(DispatchError::NotEventTarget)
                } else {
                    let h = self.proxies[i].listeners.len();
                    let slot = ListenerSlot { event, target, live: true };
                    self.proxies[i].listeners.push(slot);
                    proof {
                        assert forall|e: Seq<char>| true implies #[trigger] live_targets(
                            self.proxies@[i as int].listeners@,
                            e,
                        ) == if e == slot.event@ {
                            live_targets(old(self).proxies@[i as int].listeners@, e).push(
                                slot.target,
                            )
                        } else {
                            live_targets(old(self).proxies@[i as int].listeners@, e)
                        } by {
                            lemma_live_targets_push(
                                old(self).proxies@[i as int].listeners@,
                                slot,
                                e,
                            );
                        };
                    }
                    Result::Ok(h)
                }
            },
        }
    }

    /// Removes the listener behind a handle in O(1) by clearing its slot.
    /// Returns whether a live listener was removed; fails only on a path
    /// with no proxy.
    pub fn remove_event_listener(&mut self, ns: &Vec<String>, name: &String, handle: usize) -> (r:
        Result<bool, DispatchError>)
        ensures
            match r {
                Result::Ok(removed) => exists|i: int|
                    {
                        &&& 0 <= i < old(self).proxies@.len()
                        &&& same_path(#[trigger] old(self).proxies@[i].def, ns.deep_view(), name@)
                        &&& removed == (handle < old(self).proxies@[i].listeners@.len()
                            && old(self).proxies@[i].listeners@[handle as int].live)
                        &&& final(self).proxies@.len() == old(self).proxies@.len()
                        &&& (forall|j: int|
                            0 <= j < old(self).proxies@.len() && j != i
                                ==> final(self).proxies@[j] == old(self).proxies@[j])
                        &&& final(self).proxies@[i].def == old(self).proxies@[i].def
                        &&& (if removed {
                            final(self).proxies@[i].listeners@ == old(
                                self,
                            ).proxies@[i].listeners@.update(
                                handle as int,
                                ListenerSlot {
                                    event: old(self).proxies@[i].listeners@[handle as int].event,
                                    target: old(self).proxies@[i].listeners@[handle as int].target,
                                    live: false,
                                },
                            )
                        } else {
                            final(self).proxies@[i].listeners@ == old(self).proxies@[i].listeners@
                        })
                    },
                Result::Err(e) => {
                    &&& e == DispatchError::UnknownTarget
                    &&& !has_target(old(self).proxies@, ns.deep_view(), name@)
                    &&& final(self).proxies@ == old(self).proxies@
                },
            },
    {
        match self.lookup(ns, name) {
            Option::None => Result::Err(DispatchError::UnknownTarget),
            Option::Some(i) => {
                let n = self.proxies[i].listeners.len();
                if handle < n && self.proxies[i].listeners[handle].live {
                    self.proxies[i].listeners[handle].live = false;
                    proof {
                        assert(self.proxies@[i as int].listeners@ =~= old(
                            self,
                        ).proxies@[i as int].listeners@.update(
                            handle as int,
                            ListenerSlot {
                                event: old(self).proxies@[i as int].listeners@[handle as int].event,
                                target: old(
                                    self,
                                ).proxies@[i as int].listeners@[handle as int].target,
                                live: false,
                            },
                        ));
                    }
                    Result::Ok(true)
                } else {
                    Result::Ok(false)
                }
            },
        }
    }
}

/// Position of the first veto in a sequence of listener outcomes, or the
/// sequence's length if no listener vetoed.
pub open spec fn first_true(o: Seq<bool>) -> int
    decreases o.len(),
{
    if o.len() == 0 {
        0
    } else if o[0] {
        0
    } else {
        1 + first_true(o.drop_first())
    }
}

/// How many listeners run for these outcomes: every listener up to and
/// including the first vetoing one, and all of them when none vetoes.
pub open spec fn invoked_upto(o: Seq<bool>) -> int {
    if first_true(o) < o.len() {
        first_true(o) + 1
    } else {
        o.len() as int
    }
}

pub proof fn lemma_first_true_at(o: Seq<bool>, i: int)
    requires
        0 <= i < o.len(),
        o[i],
        forall|j: int| 0 <= j < i ==> !o[j],
    ensures
        first_true(o) == i,
    decreases i,
{
    if i > 0 {
        assert(forall|j: int| 0 <= j < i - 1 ==> !o.drop_first()[j]);
        lemma_first_true_at(o.drop_first(), i - 1);
    }
}

pub proof fn lemma_first_true_all_false(o: Seq<bool>)
    requires
        forall|j: int| 0 <= j < o.len() ==> !o[j],
    ensures
        first_true(o) == o.len(),
    decreases o.len(),
{
    if o.len() > 0 {
        assert(forall|j: int| 0 <= j < o.len() - 1 ==> !o.drop_first()[j]);
        lemma_first_true_all_false(o.drop_first());
    }
}

/// One event dispatch in flight. Listener bodies run inside the execution
/// environment, so the bridge and the environment alternate: `next_listener`
/// names the listener to invoke, the environment runs it and reports through
/// `record_outcome` whether it marked the event vetoed, and the bridge stops
/// naming listeners at the first veto.
pub struct DispatchRun {
    /// The listeners to invoke, in registration order, fixed at begin.
    pub targets: Vec<u64>,
    /// The payload every invoked listener receives.
    pub payload: ScriptValue,
    /// How many listeners have been invoked so far.
    pub cursor: usize,
    /// Whether an invoked listener has marked the event vetoed.
    pub vetoed: bool,
}

impl DispatchRun {
    pub open spec fn wf(self) -> bool {
        self.cursor <= self.targets@.len()
    }

    /// The next listener to invoke: none once a listener has vetoed or all
    /// have run.
    pub fn next_listener(&self) -> (r: Option<u64>)
        requires
            self.wf(),
        ensures
            r == if !self.vetoed && self.cursor < self.targets@.len() {
                Option::Some(self.targets@[self.cursor as int])
            } else {
                Option::None::<u64>
            },
    {
        if !self.vetoed && self.cursor < self.targets.len() {
            Option::Some(self.targets[self.cursor])
        } else {
            Option::None
        }
    }

    /// Records whether the listener just invoked marked the event vetoed.
    pub fn record_outcome(&mut self, vetoed: bool)
        requires
            old(self).wf(),
            !old(self).vetoed,
            old(self).cursor < old(self).targets@.len(),
        ensures
            final(self).wf(),
            final(self).targets@ == old(self).targets@,
            final(self).payload == old(self).payload,
            final(self).cursor == old(self).cursor + 1,
            final(self).vetoed == vetoed,
    {
        let n = self.targets.len();
        self.cursor = self.cursor + 1;
        self.vetoed = vetoed;
    }

    /// The dispatch result, once no listener is left to invoke: `true`
    /// exactly when some invoked listener vetoed.
    pub fn verdict(&self) -> (r: Option<bool>)
        requires
            self.wf(),
        ensures
            r == if self.vetoed || self.cursor == self.targets@.len() {
                Option::Some(self.vetoed)
            } else {
                Option::None::<bool>
            },
    {
        if self.vetoed || self.cursor == self.targets.len() {
            Option::Some(self.vetoed)
        } else {
            Option::None
        }
    }
}

/// The live listeners of one event, in registration order.
fn collect_live_targets(slots: &Vec<ListenerSlot>, event: &String) -> (r: Vec<u64>)
    ensures
        r@ == live_targets(slots@, event@),
{
    let mut r: Vec<u64> = Vec::new();
    let mut i: usize = 0;
    proof {
        assert(slots@.skip(0) =~= slots@);
    }
    while i < slots.len()
        invariant
            0 <= i <= slots@.len(),
            live_targets(slots@, event@) =~= r@ + live_targets(slots@.skip(i as int), event@),
        decreases slots@.len() - i,
    {
        proof {
            assert(slots@.skip(i as int)[0] == slots@[i as int]);
            assert(slots@.skip(i as int).drop_first() =~= slots@.skip(i as int + 1));
        }
        let ghost before = r@;
        if slots[i].live && slots[i].event == *event {
            let t = slots[i].target;
            r.push(t);
            proof {
                assert((before + seq![t]) + live_targets(slots@.skip(i as int + 1), event@)
                    =~= before + (seq![t] + live_targets(slots@.skip(i as int + 1), event@)));
                assert(r@ =~= before + seq![t]);
            }
        }
        i = i + 1;
    }
    proof {
        assert(slots@.skip(slots@.len() as int) =~= Seq::<ListenerSlot>::empty());
        assert(r@ + Seq::<u64>::empty() =~= r@);
    }
    r
}

impl Registry {
    /// Starts a synchronous event dispatch at one proxy: fixes the listeners
    /// to invoke (the live listeners registered for this event, in
    /// registration order) and the payload they all receive. Fails on a path
    /// with no proxy, and on a proxy without the event-target capability.
    /// The caller must already hold exclusive environment access: dispatch
    /// belongs inside a job.
    pub fn begin_dispatch(
        &self,
        ns: &Vec<String>,
        name: &String,
        event: &String,
        payload: ScriptValue,
    ) -> (r: Result<DispatchRun, DispatchError>)
        ensures
            match r {
                Result::Ok(d) => {
                    &&& exists|i: int|
                        {
                            &&& 0 <= i < self.proxies@.len()
                            &&& same_path(#[trigger] self.proxies@[i].def, ns.deep_view(), name@)
                            &&& self.proxies@[i].def.event_target
                            &&& d.targets@ == live_targets(self.proxies@[i].listeners@, event@)
                        }
                    &&& d.payload == payload
                    &&& d.cursor == 0
                    &&& !d.vetoed
                    &&& d.wf()
                },
                Result::Err(DispatchError::UnknownTarget) => !has_target(
                    self.proxies@,
                    ns.deep_view(),
                    name@,
                ),
                Result::Err(DispatchError::NotEventTarget) => exists|i: int|
                    0 <= i < self.proxies@.len() && same_path(
                        #[trigger] self.proxies@[i].def,
                        ns.deep_view(),
                        name@,
                    ) && !self.proxies@[i].def.event_target,
                Result::Err(DispatchError::ListenerFailed(_)) => false,
            },
    {
        match self.lookup(ns, name) {
            Option::None => Result::Err(DispatchError::UnknownTarget),
            Option::Some(i) => {
                if !self.proxies[i].def.event_target {
                    Result::Err(DispatchError::NotEventTarget)
                } else {
                    let targets = collect_live_targets(&self.proxies[i].listeners, event);
                    Result::Ok(DispatchRun { targets, payload, cursor: 0, vetoed: false })
                }
            },
        }
    }
}

/// Drives one dispatch to completion against a fixed table of listener
/// outcomes (`outcomes[k]` says whether the listener at position `k` would
/// veto). Exactly the listeners up to and including the first vetoing one are
/// invoked, in registration order; the result is `true` exactly when some
/// invoked listener vetoed. Returns the result and the invoked listeners.
pub fn run_with_outcomes(d: &mut DispatchRun, outcomes: &Vec<bool>) -> (r: (bool, Vec<u64>))
    requires
        old(d).wf(),
        old(d).cursor == 0,
        !old(d).vetoed,
        outcomes@.len() == old(d).targets@.len(),
    ensures
        r.1@ == old(d).targets@.take(invoked_upto(outcomes@)),
        r.0 == (first_true(outcomes@) < outcomes@.len()),
        final(d).vetoed == r.0,
{
    let mut invoked: Vec<u64> = Vec::new();
    while !d.vetoed && d.cursor < d.targets.len()
        invariant
            d.wf(),
            d.targets@ == old(d).targets@,
            outcomes@.len() == d.targets@.len(),
            invoked@ =~= d.targets@.take(d.cursor as int),
            !d.vetoed ==> forall|j: int| 0 <= j < d.cursor ==> !outcomes@[j],
            d.vetoed ==> d.cursor >= 1 && outcomes@[d.cursor - 1] && (forall|j: int|
                0 <= j < d.cursor - 1 ==> !outcomes@[j]),
        decreases d.targets@.len() - d.cursor,
    {
        let t = d.targets[d.cursor];
        invoked.push(t);
        let v = outcomes[d.cursor];
        d.record_outcome(v);
        proof {
            assert(invoked@ =~= d.targets@.take(d.cursor as int));
        }
    }
    proof {
        if d.vetoed {
            lemma_first_true_at(outcomes@, d.cursor - 1);
        } else {
            lemma_first_true_all_false(outcomes@);
        }
    }
    (d.vetoed, invoked)
}

} // verus!
