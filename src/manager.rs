use vstd::prelude::*;

use crate::config::{
    ProviderConfig, ProviderError, ProviderFunction, ProviderFunctionResponse, ProviderKind,
    RuntimeType,
};
use crate::emitter::{string_views, Emission, Emitter};

verus! {

/// What the registry knows of one running instance.
pub struct InstanceView {
    pub kind: ProviderKind,
    /// One entry per subscription, in the order in which they were made.
    /// Their number is the instance's subscriber count.
    pub subscribers: Seq<Seq<char>>,
}

/// The registry as a map from config hash to instance, with the number of
/// workers spawned over the registry's lifetime.
pub struct ManagerView {
    pub instances: Map<Seq<char>, InstanceView>,
    pub spawned: nat,
}

/// What a successful `create` did.
#[derive(PartialEq, Eq, Structural, Clone, Copy, Debug)]
pub enum CreateOutcome {
    /// An instance already ran: the caller was added as a subscriber and
    /// the instance now has this many.
    Attached { subscribers: usize },
    /// A new instance was registered; its worker must be started with the
    /// given strategy.
    Spawned { kind: ProviderKind, runtime: RuntimeType },
}

/// What a `stop` did.
#[derive(PartialEq, Eq, Structural, Clone, Copy, Debug)]
pub enum StopOutcome {
    /// Nothing to release: no instance for the hash, or the caller was not
    /// subscribed to it.
    Unknown,
    /// The subscription was released; the worker keeps running for the
    /// remaining subscribers.
    Detached { remaining: usize },
    /// The last subscription was released and the instance removed: its
    /// worker must be sent `Stop`.
    Stopped,
}

/// How a function call sent to a worker ended.
#[derive(Clone, Copy, Debug)]
pub enum FunctionReply {
    Replied(Result<ProviderFunctionResponse, ProviderError>),
    TimedOut,
    ChannelClosed,
}

pub open spec fn after_create(
    v: ManagerView,
    hash: Seq<char>,
    config: ProviderConfig,
    subscriber: Seq<char>,
) -> ManagerView {
    if v.instances.contains_key(hash) {
        let inst = v.instances[hash];
        ManagerView {
            instances: v.instances.insert(
                hash,
                InstanceView { kind: inst.kind, subscribers: inst.subscribers.push(subscriber) },
            ),
            spawned: v.spawned,
        }
    } else if !config.spec_is_valid() {
        v
    } else {
        ManagerView {
            instances: v.instances.insert(
                hash,
                InstanceView { kind: config.spec_kind(), subscribers: seq![subscriber] },
            ),
            spawned: v.spawned + 1,
        }
    }
}

pub open spec fn create_result(v: ManagerView, hash: Seq<char>, config: ProviderConfig) -> Result<
    CreateOutcome,
    ProviderError,
> {
    if v.instances.contains_key(hash) {
        Ok(
            CreateOutcome::Attached {
                subscribers: (v.instances[hash].subscribers.len() + 1) as usize,
            },
        )
    } else if !config.spec_is_valid() {
        Err(ProviderError::ConfigInvalid)
    } else {
        Ok(
            CreateOutcome::Spawned {
                kind: config.spec_kind(),
                runtime: config.spec_kind().spec_runtime_type(),
            },
        )
    }
}

pub open spec fn is_subscribed(v: ManagerView, hash: Seq<char>, subscriber: Seq<char>) -> bool {
    v.instances.contains_key(hash) && v.instances[hash].subscribers.contains(subscriber)
}

pub open spec fn after_stop(v: ManagerView, hash: Seq<char>, subscriber: Seq<char>) -> ManagerView {
    if !is_subscribed(v, hash, subscriber) {
        v
    } else {
        let inst = v.instances[hash];
        let rest = inst.subscribers.remove_value(subscriber);
        if rest.len() == 0 {
            ManagerView { instances: v.instances.remove(hash), spawned: v.spawned }
        } else {
            ManagerView {
                instances: v.instances.insert(
                    hash,
                    InstanceView { kind: inst.kind, subscribers: rest },
                ),
                spawned: v.spawned,
            }
        }
    }
}

pub open spec fn stop_result(v: ManagerView, hash: Seq<char>, subscriber: Seq<char>) -> StopOutcome {
    if !is_subscribed(v, hash, subscriber) {
        StopOutcome::Unknown
    } else if v.instances[hash].subscribers.len() == 1 {
        StopOutcome::Stopped
    } else {
        StopOutcome::Detached { remaining: (v.instances[hash].subscribers.len() - 1) as usize }
    }
}

pub open spec fn route_result(v: ManagerView, hash: Seq<char>) -> Result<(), ProviderError> {
    if v.instances.contains_key(hash) {
        Ok(())
    } else {
        Err(ProviderError::NotFound)
    }
}

pub open spec fn after_reply(v: ManagerView, hash: Seq<char>, reply: FunctionReply) -> ManagerView {
    match reply {
        FunctionReply::ChannelClosed => ManagerView {
            instances: v.instances.remove(hash),
            spawned: v.spawned,
        },
        _ => v,
    }
}

pub open spec fn reply_result(reply: FunctionReply) -> Result<
    ProviderFunctionResponse,
    ProviderError,
> {
    match reply {
        FunctionReply::Replied(r) => r,
        FunctionReply::TimedOut => Err(ProviderError::FunctionTimeout),
        FunctionReply::ChannelClosed => Err(ProviderError::ChannelClosed),
    }
}

/// The manager's record of one running worker.
pub struct Instance {
    config_hash: String,
    kind: ProviderKind,
    emitter: Emitter,
}

impl Instance {
    pub closed spec fn hash_view(&self) -> Seq<char> {
        self.config_hash@
    }

    pub closed spec fn record(&self) -> InstanceView {
        InstanceView { kind: self.kind, subscribers: self.emitter@ }
    }
}

/// The records hold distinct hashes, and the map holds exactly the records'
/// hashes, each with at least one subscriber.
spec fn registry_wf(insts: Seq<Instance>, reg: Map<Seq<char>, InstanceView>) -> bool {
    &&& forall|i: int, j: int|
        0 <= i < insts.len() && 0 <= j < insts.len() && i != j ==> insts[i].hash_view()
            != insts[j].hash_view()
    &&& forall|i: int|
        0 <= i < insts.len() ==> {
            &&& reg.contains_key(#[trigger] insts[i].hash_view())
            &&& reg[insts[i].hash_view()] == insts[i].record()
        }
    &&& forall|h: Seq<char>| #[trigger]
        reg.contains_key(h) ==> exists|i: int| 0 <= i < insts.len() && insts[i].hash_view() == h
    &&& forall|h: Seq<char>| #[trigger] reg.contains_key(h) ==> reg[h].subscribers.len() > 0
}

proof fn lemma_registry_update(
    insts: Seq<Instance>,
    reg: Map<Seq<char>, InstanceView>,
    i: int,
    inst: Instance,
)
    requires
        registry_wf(insts, reg),
        0 <= i < insts.len(),
        inst.hash_view() == insts[i].hash_view(),
        inst.record().subscribers.len() > 0,
    ensures
        registry_wf(insts.update(i, inst), reg.insert(inst.hash_view(), inst.record())),
{
    let ni = insts.update(i, inst);
    let nr = reg.insert(inst.hash_view(), inst.record());
    assert forall|g: Seq<char>| #[trigger] nr.contains_key(g) implies exists|k: int|
        0 <= k < ni.len() && ni[k].hash_view() == g by {
        if g == inst.hash_view() {
            assert(ni[i].hash_view() == g);
        } else {
            let k = choose|k: int| 0 <= k < insts.len() && insts[k].hash_view() == g;
            assert(ni[k].hash_view() == g);
        }
    }
}

proof fn lemma_registry_push(insts: Seq<Instance>, reg: Map<Seq<char>, InstanceView>, inst: Instance)
    requires
        registry_wf(insts, reg),
        !reg.contains_key(inst.hash_view()),
        inst.record().subscribers.len() > 0,
    ensures
        registry_wf(insts.push(inst), reg.insert(inst.hash_view(), inst.record())),
{
    let ni = insts.push(inst);
    let nr = reg.insert(inst.hash_view(), inst.record());
    assert forall|g: Seq<char>| #[trigger] nr.contains_key(g) implies exists|k: int|
        0 <= k < ni.len() && ni[k].hash_view() == g by {
        if g == inst.hash_view() {
            assert(ni[insts.len() as int].hash_view() == g);
        } else {
            let k = choose|k: int| 0 <= k < insts.len() && insts[k].hash_view() == g;
            assert(ni[k].hash_view() == g);
        }
    }
    assert forall|a: int, b: int|
        0 <= a < ni.len() && 0 <= b < ni.len() && a != b implies ni[a].hash_view()
        != ni[b].hash_view() by {
        if a == insts.len() {
            assert(reg.contains_key(insts[b].hash_view()));
        } else if b == insts.len() {
            assert(reg.contains_key(insts[a].hash_view()));
        }
    }
}

proof fn lemma_registry_remove(insts: Seq<Instance>, reg: Map<Seq<char>, InstanceView>, i: int)
    requires
        registry_wf(insts, reg),
        0 <= i < insts.len(),
    ensures
        registry_wf(insts.remove(i), reg.remove(insts[i].hash_view())),
{
    let ni = insts.remove(i);
    let h = insts[i].hash_view();
    let nr = reg.remove(h);
    assert forall|g: Seq<char>| #[trigger] nr.contains_key(g) implies exists|k: int|
        0 <= k < ni.len() && ni[k].hash_view() == g by {
        let k = choose|k: int| 0 <= k < insts.len() && insts[k].hash_view() == g;
        if k < i {
            assert(ni[k].hash_view() == g);
        } else {
            assert(ni[k - 1].hash_view() == g);
        }
    }
    assert forall|k: int| 0 <= k < ni.len() implies {
        &&& nr.contains_key(#[trigger] ni[k].hash_view())
        &&& nr[ni[k].hash_view()] == ni[k].record()
    } by {
        if k < i {
            assert(ni[k] == insts[k]);
        } else {
            assert(ni[k] == insts[k + 1]);
        }
    }
    assert forall|a: int, b: int|
        0 <= a < ni.len() && 0 <= b < ni.len() && a != b implies ni[a].hash_view()
        != ni[b].hash_view() by {
        let oa = if a < i { a } else { a + 1 };
        let ob = if b < i { b } else { b + 1 };
        assert(ni[a] == insts[oa]);
        assert(ni[b] == insts[ob]);
    }
}

/// The registry of running provider instances, keyed by config hash.
///
/// The registry holds at most one instance per hash, and every instance has
/// at least one subscriber. Callers that share it between threads guard it
/// with one lock, taken only around these operations and never while a
/// worker samples.
pub struct ProviderManager {
    instances: Vec<Instance>,
    registry: Ghost<Map<Seq<char>, InstanceView>>,
    spawned: Ghost<nat>,
}

impl View for ProviderManager {
    type V = ManagerView;

    closed spec fn view(&self) -> ManagerView {
        ManagerView { instances: self.registry@, spawned: self.spawned@ }
    }
}

impl ProviderManager {
    pub closed spec fn wf(&self) -> bool {
        registry_wf(self.instances@, self.registry@)
    }

    /// An empty registry.
    pub fn new() -> (r: ProviderManager)
        ensures
            r.wf(),
            r@.instances == Map::<Seq<char>, InstanceView>::empty(),
            r@.spawned == 0,
    {
        ProviderManager {
            instances: Vec::new(),
            registry: Ghost(Map::empty()),
            spawned: Ghost(0),
        }
    }

    fn find(&self, config_hash: &String) -> (r: Option<usize>)
        requires
            self.wf(),
        ensures
            match r {
                Some(i) => i < self.instances@.len() && self.instances@[i as int].hash_view()
                    == config_hash@,
                None => !self@.instances.contains_key(config_hash@),
            },
    {
        let n = self.instances.len();
        let mut i: usize = 0;
        while i < n
            invariant
                n == self.instances@.len(),
                0 <= i <= n,
                forall|j: int| 0 <= j < i ==> self.instances@[j].hash_view() != config_hash@,
            decreases n - i,
        {
            if self.instances[i].config_hash == *config_hash {
                return Some(i);
            }
            i = i + 1;
        }
        None
    }

    /// Attaches `subscriber` to the instance for `config_hash`, or, when
    /// none runs, validates `config` and registers a new instance whose
    /// worker the caller then starts. A hash never gets a second worker
    /// while its instance runs; on error the registry is left untouched.
    pub fn create(&mut self, config_hash: String, config: ProviderConfig, subscriber: String) -> (r:
        Result<CreateOutcome, ProviderError>)
        requires
            old(self).wf(),
        ensures
            final(self).wf(),
            final(self)@ == after_create(old(self)@, config_hash@, config, subscriber@),
            r == create_result(old(self)@, config_hash@, config),
    {
        match self.find(&config_hash) {
            Some(i) => {
                let ghost old_insts = self.instances@;
                let mut inst = self.instances.remove(i);
                inst.emitter.subscribe(subscriber);
                let count = inst.emitter.len();
                self.instances.insert(i, inst);
                let ghost h = config_hash@;
                proof {
                    assert(self.instances@ =~= old_insts.update(i as int, inst));
                    lemma_registry_update(old_insts, self.registry@, i as int, inst);
                    self.registry@ = self.registry@.insert(h, inst.record());
                }
                Ok(CreateOutcome::Attached { subscribers: count })
            },
            None => {
                if let Err(e) = config.validate() {
                    return Err(e);
                }
                let kind = config.kind();
                let mut emitter = Emitter::new();
                emitter.subscribe(subscriber);
                let ghost old_insts = self.instances@;
                let inst = Instance { config_hash, kind, emitter };
                self.instances.push(inst);
                proof {
                    assert(emitter@ =~= seq![subscriber@]);
                    lemma_registry_push(old_insts, self.registry@, inst);
                    self.registry@ = self.registry@.insert(inst.hash_view(), inst.record());
                    self.spawned@ = self.spawned@ + 1;
                }
                Ok(CreateOutcome::Spawned { kind, runtime: kind.runtime_type() })
            },
        }
    }

    /// Releases one subscription of `subscriber` to the instance for
    /// `config_hash`. When it was the last one, the instance leaves the
    /// registry and the caller sends its worker `Stop`. Releasing what is
    /// not held changes nothing.
    pub fn stop(&mut self, config_hash: &String, subscriber: &String) -> (r: StopOutcome)
        requires
            old(self).wf(),
        ensures
            final(self).wf(),
            final(self)@ == after_stop(old(self)@, config_hash@, subscriber@),
            r == stop_result(old(self)@, config_hash@, subscriber@),
    {
        match self.find(config_hash) {
            None => StopOutcome::Unknown,
            Some(i) => {
                let ghost old_insts = self.instances@;
                let ghost old_reg = self.registry@;
                let mut inst = self.instances.remove(i);
                let ghost before = inst.emitter@;
                let held = inst.emitter.unsubscribe(subscriber);
                let remaining = inst.emitter.len();
                proof {
                    before.index_of_first_ensures(subscriber@);
                }
                if !held {
                    self.instances.insert(i, inst);
                    proof {
                        before.index_of_first_ensures(subscriber@);
                        assert(self.instances@ =~= old_insts.update(i as int, inst));
                        lemma_registry_update(old_insts, old_reg, i as int, inst);
                        assert(old_reg.insert(config_hash@, inst.record()) =~= old_reg);
                    }
                    StopOutcome::Unknown
                } else if remaining == 0 {
                    proof {
                        lemma_registry_remove(old_insts, old_reg, i as int);
                        self.registry@ = old_reg.remove(config_hash@);
                    }
                    StopOutcome::Stopped
                } else {
                    self.instances.insert(i, inst);
                    proof {
                        assert(self.instances@ =~= old_insts.update(i as int, inst));
                        lemma_registry_update(old_insts, old_reg, i as int, inst);
                        self.registry@ = old_reg.insert(config_hash@, inst.record());
                    }
                    StopOutcome::Detached { remaining }
                }
            },
        }
    }

    /// Removes the instance for `config_hash`, whatever its subscribers:
    /// used when its worker failed to start or exited on its own. Returns
    /// whether there was one.
    pub fn discard(&mut self, config_hash: &String) -> (r: bool)
        requires
            old(self).wf(),
        ensures
            final(self).wf(),
            r == old(self)@.instances.contains_key(config_hash@),
            final(self)@ == (ManagerView {
                instances: old(self)@.instances.remove(config_hash@),
                spawned: old(self)@.spawned,
            }),
    {
        match self.find(config_hash) {
            None => {
                proof {
                    assert(self.registry@.remove(config_hash@) =~= self.registry@);
                }
                false
            },
            Some(i) => {
                let ghost old_insts = self.instances@;
                let ghost old_reg = self.registry@;
                self.instances.remove(i);
                proof {
                    lemma_registry_remove(old_insts, old_reg, i as int);
                    self.registry@ = old_reg.remove(config_hash@);
                }
                true
            },
        }
    }

    /// Checks that a function call can be sent: `NotFound` exactly when no
    /// instance runs for `config_hash`. On `Ok` the caller sends the worker
    /// the call with a reply channel and waits up to its deadline.
    pub fn call_function(&self, config_hash: &String, function: &ProviderFunction) -> (r: Result<
        (),
        ProviderError,
    >)
        requires
            self.wf(),
        ensures
            r == route_result(self@, config_hash@),
    {
        match self.find(config_hash) {
            Some(_) => Ok(()),
            None => Err(ProviderError::NotFound),
        }
    }

    /// Settles a function call that was sent to the worker for
    /// `config_hash`. A timeout leaves the instance as it was; a closed
    /// channel means the worker is gone, and its instance leaves the
    /// registry so that later operations see `NotFound`.
    pub fn resolve_function_reply(&mut self, config_hash: &String, reply: FunctionReply) -> (r:
        Result<ProviderFunctionResponse, ProviderError>)
        requires
            old(self).wf(),
        ensures
            final(self).wf(),
            final(self)@ == after_reply(old(self)@, config_hash@, reply),
            r == reply_result(reply),
    {
        match reply {
            FunctionReply::Replied(res) => res,
            FunctionReply::TimedOut => Err(ProviderError::FunctionTimeout),
            FunctionReply::ChannelClosed => {
                self.discard(config_hash);
                Err(ProviderError::ChannelClosed)
            },
        }
    }

    /// Addresses one output of the worker for `config_hash` to its current
    /// subscribers; `None` once the instance has left the registry, so a
    /// stopped worker's last outputs reach nobody.
    pub fn emit<T>(&self, config_hash: &String, result: Result<T, String>) -> (r: Option<
        Emission<T>,
    >)
        requires
            self.wf(),
        ensures
            r is None <==> !self@.instances.contains_key(config_hash@),
            r matches Some(e) ==> {
                &&& e.config_hash@ == config_hash@
                &&& string_views(e.targets@) == self@.instances[config_hash@].subscribers
                &&& e.result == result
            },
    {
        match self.find(config_hash) {
            Some(i) => Some(self.instances[i].emitter.emit(config_hash, result)),
            None => None,
        }
    }

    /// Removes every instance and returns their hashes; the caller sends
    /// each worker `Stop`.
    pub fn shutdown(&mut self) -> (r: Vec<String>)
        requires
            old(self).wf(),
        ensures
            final(self).wf(),
            final(self)@.instances == Map::<Seq<char>, InstanceView>::empty(),
            final(self)@.spawned == old(self)@.spawned,
            string_views(r@).no_duplicates(),
            string_views(r@).to_set() == old(self)@.instances.dom(),
    {
        let ghost old_insts = self.instances@;
        let ghost old_reg = self.registry@;
        let mut hashes: Vec<String> = Vec::new();
        let n = self.instances.len();
        let mut i: usize = 0;
        while i < n
            invariant
                n == self.instances@.len(),
                self.instances@ == old_insts,
                self.registry@ == old_reg,
                registry_wf(old_insts, old_reg),
                0 <= i <= n,
                hashes@.len() == i,
                forall|k: int| 0 <= k < i ==> #[trigger] hashes@[k]@ == old_insts[k].hash_view(),
            decreases n - i,
        {
            let h = self.instances[i].config_hash.clone();
            hashes.push(h);
            i = i + 1;
        }
        self.instances = Vec::new();
        proof {
            let hv = string_views(hashes@);
            assert forall|a: int, b: int| 0 <= a < hv.len() && 0 <= b < hv.len() && a != b implies hv[a]
                != hv[b] by {
                assert(hashes@[a]@ == old_insts[a].hash_view());
                assert(hashes@[b]@ == old_insts[b].hash_view());
            }
            assert forall|g: Seq<char>| hv.to_set().contains(g) <==> old_reg.dom().contains(g) by {
                if old_reg.contains_key(g) {
                    let k = choose|k: int| 0 <= k < old_insts.len() && old_insts[k].hash_view() == g;
                    assert(hv[k] == g);
                }
                if hv.contains(g) {
                    let k = choose|k: int| 0 <= k < hv.len() && hv[k] == g;
                    assert(hashes@[k]@ == old_insts[k].hash_view());
                }
            }
            assert(hv.to_set() =~= old_reg.dom());
            self.registry@ = Map::empty();
            assert(registry_wf(self.instances@, self.registry@));
        }
        hashes
    }

    /// Whether an instance runs for `config_hash`.
    pub fn contains(&self, config_hash: &String) -> (r: bool)
        requires
            self.wf(),
        ensures
            r == self@.instances.contains_key(config_hash@),
    {
        match self.find(config_hash) {
            Some(_) => true,
            None => false,
        }
    }

    /// The number of subscribers of the instance for `config_hash`; zero
    /// when none runs.
    pub fn subscriber_count(&self, config_hash: &String) -> (r: usize)
        requires
            self.wf(),
        ensures
            self@.instances.contains_key(config_hash@) ==> r
                == self@.instances[config_hash@].subscribers.len(),
            !self@.instances.contains_key(config_hash@) ==> r == 0,
    {
        match self.find(config_hash) {
            Some(i) => self.instances[i].emitter.len(),
            None => 0,
        }
    }
}

/// The registry after `create` was called for `hash` once per entry of
/// `subscribers`, in order.
pub open spec fn after_creates(
    v: ManagerView,
    hash: Seq<char>,
    config: ProviderConfig,
    subscribers: Seq<Seq<char>>,
) -> ManagerView
    decreases subscribers.len(),
{
    if subscribers.len() == 0 {
        v
    } else {
        after_creates(
            after_create(v, hash, config, subscribers[0]),
            hash,
            config,
            subscribers.drop_first(),
        )
    }
}

proof fn lemma_creates_attach(
    v: ManagerView,
    hash: Seq<char>,
    config: ProviderConfig,
    subscribers: Seq<Seq<char>>,
)
    requires
        v.instances.contains_key(hash),
    ensures
        after_creates(v, hash, config, subscribers).spawned == v.spawned,
        after_creates(v, hash, config, subscribers).instances == v.instances.insert(
            hash,
            InstanceView {
                kind: v.instances[hash].kind,
                subscribers: v.instances[hash].subscribers + subscribers,
            },
        ),
    decreases subscribers.len(),
{
    let inst = v.instances[hash];
    if subscribers.len() == 0 {
        assert(inst.subscribers + subscribers =~= inst.subscribers);
        assert(v.instances.insert(hash, inst) =~= v.instances);
    } else {
        let next = after_create(v, hash, config, subscribers[0]);
        lemma_creates_attach(next, hash, config, subscribers.drop_first());
        assert(inst.subscribers.push(subscribers[0]) + subscribers.drop_first() =~= inst.subscribers
            + subscribers);
        assert(next.instances.insert(
            hash,
            InstanceView {
                kind: inst.kind,
                subscribers: next.instances[hash].subscribers + subscribers.drop_first(),
            },
        ) =~= v.instances.insert(
            hash,
            InstanceView { kind: inst.kind, subscribers: inst.subscribers + subscribers },
        ));
    }
}

/// However many `create` calls share one hash, and in whatever order the
/// callers' calls are serialized, exactly one worker is spawned for it, and
/// every caller becomes a subscriber of that one instance. When the hash
/// already runs, no worker is spawned at all. Other hashes are untouched.
pub proof fn lemma_one_worker_per_hash(
    v: ManagerView,
    hash: Seq<char>,
    config: ProviderConfig,
    subscribers: Seq<Seq<char>>,
)
    requires
        subscribers.len() > 0,
        v.instances.contains_key(hash) || config.spec_is_valid(),
    ensures
        ({
            let w = after_creates(v, hash, config, subscribers);
            &&& w.instances.contains_key(hash)
            &&& w.spawned == v.spawned + if v.instances.contains_key(hash) {
                0int
            } else {
                1int
            }
            &&& w.instances[hash].subscribers == if v.instances.contains_key(hash) {
                v.instances[hash].subscribers + subscribers
            } else {
                subscribers
            }
            &&& forall|g: Seq<char>|
                g != hash ==> (#[trigger] w.instances.contains_key(g) == v.instances.contains_key(g)
                    && (v.instances.contains_key(g) ==> w.instances[g] == v.instances[g]))
        }),
{
    if v.instances.contains_key(hash) {
        lemma_creates_attach(v, hash, config, subscribers);
    } else {
        let next = after_create(v, hash, config, subscribers[0]);
        lemma_creates_attach(next, hash, config, subscribers.drop_first());
        assert(seq![subscribers[0]] + subscribers.drop_first() =~= subscribers);
    }
}

/// Invalid configs spawn nothing and leave the registry as it was.
pub proof fn lemma_invalid_config_untouched(
    v: ManagerView,
    hash: Seq<char>,
    config: ProviderConfig,
    subscriber: Seq<char>,
)
    requires
        !v.instances.contains_key(hash),
        !config.spec_is_valid(),
    ensures
        after_create(v, hash, config, subscriber) == v,
        create_result(v, hash, config) == Err::<CreateOutcome, ProviderError>(
            ProviderError::ConfigInvalid,
        ),
{
}

/// A `stop` that leaves other subscribers keeps the instance registered,
/// so its worker runs on and its outputs still reach them; the `stop` that
/// releases the last subscription removes the instance.
pub proof fn lemma_teardown_at_zero(v: ManagerView, hash: Seq<char>, subscriber: Seq<char>)
    requires
        is_subscribed(v, hash, subscriber),
    ensures
        v.instances[hash].subscribers.len() > 1 ==> {
            let w = after_stop(v, hash, subscriber);
            &&& w.instances.contains_key(hash)
            &&& w.instances[hash].subscribers.len() == v.instances[hash].subscribers.len() - 1
            &&& stop_result(v, hash, subscriber) == StopOutcome::Detached {
                remaining: (v.instances[hash].subscribers.len() - 1) as usize,
            }
        },
        v.instances[hash].subscribers.len() == 1 ==> {
            &&& !after_stop(v, hash, subscriber).instances.contains_key(hash)
            &&& stop_result(v, hash, subscriber) == StopOutcome::Stopped
        },
        after_stop(v, hash, subscriber).spawned == v.spawned,
{
    v.instances[hash].subscribers.index_of_first_ensures(subscriber);
}

/// A function call that times out leaves the instance as it was, so the
/// next call on the same hash is routed to the worker again.
pub proof fn lemma_timeout_keeps_instance(v: ManagerView, hash: Seq<char>)
    requires
        v.instances.contains_key(hash),
    ensures
        after_reply(v, hash, FunctionReply::TimedOut) == v,
        reply_result(FunctionReply::TimedOut) == Err::<ProviderFunctionResponse, ProviderError>(
            ProviderError::FunctionTimeout,
        ),
        route_result(after_reply(v, hash, FunctionReply::TimedOut), hash) == Ok::<
            (),
            ProviderError,
        >(()),
{
}

} // verus!
