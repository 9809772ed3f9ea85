//! The registry of live scripts: at most one per origin message, kept by
//! channel and message.

use vstd::prelude::*;
use crate::feedback::{effect_views, Effect, EffectView};
use crate::neoapi::NeoMessage;
use crate::script::{call_for, status_effects, Call, Script};

verus! {

/// The channel and the message that anchor a script.
pub type Origin = (u64, u64);

/// A live script as the registry's contracts see it: the message that
/// anchors it, whether it takes events, and the engine that holds it.
pub ghost struct Instance {
    pub origin: NeoMessage,
    pub enabled: bool,
    pub engine: rhai::Engine,
}

impl Instance {
    /// The channel and the message that anchor the instance.
    pub open spec fn key(self) -> Origin {
        (self.origin.channel_id, self.origin.id)
    }
}

/// The instance that a stored script stands for.
pub open spec fn instance_of(script: Script) -> Instance {
    Instance { origin: script.source_msg, enabled: script.enabled, engine: script.engine }
}

/// No two instances of `s` are anchored to the same message.
pub open spec fn distinct_origins(s: Seq<Instance>) -> bool {
    forall|i: int, j: int|
        0 <= i < j < s.len() ==> (#[trigger] s[i]).key() != (#[trigger] s[j]).key()
}

/// Some instance of `s` is anchored to `k`.
pub open spec fn holds(s: Seq<Instance>, k: Origin) -> bool {
    exists|i: int| 0 <= i < s.len() && (#[trigger] s[i]).key() == k
}

/// Where in `s` the instance anchored to `k` stands.
pub open spec fn position(s: Seq<Instance>, k: Origin) -> int {
    choose|i: int| 0 <= i < s.len() && (#[trigger] s[i]).key() == k
}

/// The instances of `s`, each under its origin.
pub open spec fn as_map(s: Seq<Instance>) -> Map<Origin, Instance> {
    Map::new(|k: Origin| holds(s, k), |k: Origin| s[position(s, k)])
}

/// Under distinct origins, an instance is found under its own origin.
pub proof fn lemma_lookup(s: Seq<Instance>, i: int)
    requires
        distinct_origins(s),
        0 <= i < s.len(),
    ensures
        holds(s, s[i].key()),
        position(s, s[i].key()) == i,
        as_map(s).contains_key(s[i].key()),
        as_map(s)[s[i].key()] == s[i],
{
    let k = s[i].key();
    let j = position(s, k);
    assert(0 <= j < s.len() && s[j].key() == k);
    if j < i {
        assert(s[j].key() != s[i].key());
    } else if i < j {
        assert(s[i].key() != s[j].key());
    }
}

/// An instance with a new origin joins the others under that origin.
proof fn lemma_push(s: Seq<Instance>, x: Instance)
    requires
        distinct_origins(s),
        !holds(s, x.key()),
    ensures
        distinct_origins(s.push(x)),
        as_map(s.push(x)) == as_map(s).insert(x.key(), x),
{
    let t = s.push(x);
    assert forall|i: int, j: int| 0 <= i < j < t.len() implies (#[trigger] t[i]).key() != (
    #[trigger] t[j]).key() by {
        if j < s.len() {
            assert(s[i].key() != s[j].key());
        } else {
            if t[i].key() == x.key() {
                assert(s[i].key() == x.key());
                assert(holds(s, x.key()));
            }
        }
    }
    assert forall|k: Origin| holds(t, k) <==> (k == x.key() || holds(s, k)) by {
        if holds(t, k) {
            let i = choose|i: int| 0 <= i < t.len() && (#[trigger] t[i]).key() == k;
            if i < s.len() {
                assert(s[i].key() == k);
            }
        }
        if k == x.key() {
            assert(t[s.len() as int].key() == k);
        }
        if holds(s, k) {
            let i = choose|i: int| 0 <= i < s.len() && (#[trigger] s[i]).key() == k;
            assert(t[i].key() == k);
        }
    }
    assert forall|k: Origin| holds(t, k) implies #[trigger] as_map(t)[k] == as_map(s).insert(
        x.key(),
        x,
    )[k] by {
        let i = position(t, k);
        lemma_lookup(t, i);
        if i < s.len() {
            assert(s[i] == t[i]);
            lemma_lookup(s, i);
        }
    }
    assert(as_map(t) =~= as_map(s).insert(x.key(), x));
}

/// Taking the instance at `i` away empties its origin and no other.
proof fn lemma_remove(s: Seq<Instance>, i: int)
    requires
        distinct_origins(s),
        0 <= i < s.len(),
    ensures
        distinct_origins(s.remove(i)),
        !holds(s.remove(i), s[i].key()),
        as_map(s.remove(i)) == as_map(s).remove(s[i].key()),
{
    let t = s.remove(i);
    let gone = s[i].key();
    assert forall|a: int| 0 <= a < t.len() implies #[trigger] t[a] == s[if a < i {
        a
    } else {
        a + 1
    }] by {}
    assert forall|a: int, b: int| 0 <= a < b < t.len() implies (#[trigger] t[a]).key() != (
    #[trigger] t[b]).key() by {
        let a2 = if a < i {
            a
        } else {
            a + 1
        };
        let b2 = if b < i {
            b
        } else {
            b + 1
        };
        assert(s[a2].key() != s[b2].key());
    }
    assert forall|k: Origin| holds(t, k) <==> (k != gone && holds(s, k)) by {
        if holds(t, k) {
            let a = choose|a: int| 0 <= a < t.len() && (#[trigger] t[a]).key() == k;
            let a2 = if a < i {
                a
            } else {
                a + 1
            };
            assert(s[a2].key() == k);
            if a2 < i {
                assert(s[a2].key() != s[i].key());
            } else {
                assert(s[i].key() != s[a2].key());
            }
        }
        if k != gone && holds(s, k) {
            let a = choose|a: int| 0 <= a < s.len() && (#[trigger] s[a]).key() == k;
            let a2 = if a < i {
                a
            } else {
                a - 1
            };
            assert(t[a2].key() == k);
        }
    }
    assert forall|k: Origin| holds(t, k) implies #[trigger] as_map(t)[k] == as_map(s)[k] by {
        let a = position(t, k);
        lemma_lookup(t, a);
        let a2 = if a < i {
            a
        } else {
            a + 1
        };
        lemma_lookup(s, a2);
    }
    assert(as_map(t) =~= as_map(s).remove(gone));
}

/// Changing the instance at `i` without moving its anchor changes what
/// stands under that origin and nothing else.
proof fn lemma_update(s: Seq<Instance>, i: int, x: Instance)
    requires
        distinct_origins(s),
        0 <= i < s.len(),
        x.key() == s[i].key(),
    ensures
        distinct_origins(s.update(i, x)),
        as_map(s.update(i, x)) == as_map(s).insert(x.key(), x),
{
    let t = s.update(i, x);
    assert forall|a: int| 0 <= a < t.len() implies (#[trigger] t[a]).key() == s[a].key() by {}
    assert forall|a: int, b: int| 0 <= a < b < t.len() implies (#[trigger] t[a]).key() != (
    #[trigger] t[b]).key() by {
        assert(s[a].key() != s[b].key());
    }
    assert forall|k: Origin| holds(t, k) <==> holds(s, k) by {
        if holds(t, k) {
            let a = choose|a: int| 0 <= a < t.len() && (#[trigger] t[a]).key() == k;
            assert(s[a].key() == k);
        }
        if holds(s, k) {
            let a = choose|a: int| 0 <= a < s.len() && (#[trigger] s[a]).key() == k;
            assert(t[a].key() == k);
        }
    }
    lemma_lookup(s, i);
    assert forall|k: Origin| holds(t, k) implies #[trigger] as_map(t)[k] == as_map(s).insert(
        x.key(),
        x,
    )[k] by {
        let a = position(t, k);
        lemma_lookup(t, a);
        lemma_lookup(s, a);
    }
    assert(as_map(t) =~= as_map(s).insert(x.key(), x));
}

/// Under distinct origins, there are as many origins as instances.
pub proof fn lemma_size(s: Seq<Instance>)
    requires
        distinct_origins(s),
    ensures
        as_map(s).dom().finite(),
        as_map(s).dom().len() == s.len(),
    decreases s.len(),
{
    if s.len() == 0 {
        assert(as_map(s).dom() =~= Set::<Origin>::empty());
    } else {
        let rest = s.drop_last();
        let x = s.last();
        assert forall|i: int, j: int| 0 <= i < j < rest.len() implies (#[trigger] rest[i]).key() != (
        #[trigger] rest[j]).key() by {
            assert(s[i].key() != s[j].key());
        }
        if holds(rest, x.key()) {
            let i = choose|i: int| 0 <= i < rest.len() && (#[trigger] rest[i]).key() == x.key();
            assert(s[i].key() != s[s.len() - 1].key());
        }
        lemma_size(rest);
        lemma_push(rest, x);
        assert(rest.push(x) =~= s);
        assert(as_map(s).dom() =~= as_map(rest).dom().insert(x.key()));
    }
}

/// `calls` is a full pass of the hook `hook` over the channel `channel_id` of
/// the registry `m`, for the event `payload`: there is one call for every
/// enabled instance of the channel and no other call, and every call is the
/// call of `hook` with `payload` as its one argument.
pub open spec fn full_pass(
    m: Map<Origin, Instance>,
    channel_id: u64,
    hook: Seq<char>,
    payload: NeoMessage,
    calls: Seq<Call>,
) -> bool {
    &&& forall|k: int|
        0 <= k < calls.len() ==> {
            let c = #[trigger] calls[k];
            &&& c.channel_id == channel_id
            &&& m.contains_key((channel_id, c.message_id))
            &&& m[(channel_id, c.message_id)].enabled
            &&& call_for(m[(channel_id, c.message_id)].origin, hook, seq![payload], c)
        }
    &&& forall|message_id: u64|
        #[trigger] m.contains_key((channel_id, message_id)) && m[(channel_id, message_id)].enabled
            ==> exists|k: int|
            0 <= k < calls.len() && (#[trigger] calls[k]).message_id == message_id
    &&& forall|a: int, b: int|
        0 <= a < b < calls.len() ==> (#[trigger] calls[a]).message_id != (
        #[trigger] calls[b]).message_id
}

/// The registry `m` once the instance anchored to `k`, if there is one, is
/// enabled or disabled as `desired` asks. Its anchor and its engine stay.
pub open spec fn with_status(m: Map<Origin, Instance>, k: Origin, desired: bool) -> Map<
    Origin,
    Instance,
> {
    if m.contains_key(k) {
        m.insert(k, Instance { origin: m[k].origin, enabled: desired, engine: m[k].engine })
    } else {
        m
    }
}

/// What is shown when the instance anchored to `k` is asked to be enabled or
/// disabled as `desired` says: nothing where no instance is anchored there,
/// nothing where it already is so, else the signal of the new state in place
/// of the old signals.
pub open spec fn status_change_effects(m: Map<Origin, Instance>, k: Origin, desired: bool) -> Seq<
    EffectView,
> {
    if m.contains_key(k) && m[k].enabled != desired {
        status_effects(m[k].origin, desired)
    } else {
        Seq::<EffectView>::empty()
    }
}

/// A channel without instances gets no call.
pub proof fn lemma_empty_channel_gets_nothing(
    m: Map<Origin, Instance>,
    channel_id: u64,
    hook: Seq<char>,
    payload: NeoMessage,
    calls: Seq<Call>,
)
    requires
        full_pass(m, channel_id, hook, payload, calls),
        forall|message_id: u64| !m.contains_key((channel_id, message_id)),
    ensures
        calls.len() == 0,
{
    if calls.len() > 0 {
        assert(m.contains_key((channel_id, calls[0].message_id)));
    }
}

/// A disabled instance gets no call.
pub proof fn lemma_disabled_gets_nothing(
    m: Map<Origin, Instance>,
    channel_id: u64,
    hook: Seq<char>,
    payload: NeoMessage,
    calls: Seq<Call>,
    message_id: u64,
)
    requires
        full_pass(m, channel_id, hook, payload, calls),
        m.contains_key((channel_id, message_id)),
        !m[(channel_id, message_id)].enabled,
    ensures
        forall|k: int| 0 <= k < calls.len() ==> (#[trigger] calls[k]).message_id != message_id,
{
}

/// Every enabled instance of the channel gets its call, and gets it once:
/// the call of the hook with the event as its one argument. The call is
/// there before any call is made, so no other call can take it away,
/// however it ends.
pub proof fn lemma_enabled_gets_one_call(
    m: Map<Origin, Instance>,
    channel_id: u64,
    hook: Seq<char>,
    payload: NeoMessage,
    calls: Seq<Call>,
    message_id: u64,
)
    requires
        full_pass(m, channel_id, hook, payload, calls),
        m.contains_key((channel_id, message_id)),
        m[(channel_id, message_id)].enabled,
    ensures
        exists|k: int|
            0 <= k < calls.len() && (#[trigger] calls[k]).message_id == message_id
                && calls[k].arguments@.len() == 1 && calls[k].arguments@[0].value == payload
                && calls[k].hook@ == hook && forall|other: int|
                0 <= other < calls.len() && other != k ==> (#[trigger] calls[other]).message_id
                    != message_id,
{
    let k = choose|k: int| 0 <= k < calls.len() && (#[trigger] calls[k]).message_id == message_id;
    assert(call_for(m[(channel_id, message_id)].origin, hook, seq![payload], calls[k]));
    assert(calls[k].arguments@[0].value == seq![payload][0]);
    assert forall|other: int| 0 <= other < calls.len() && other != k implies (
    #[trigger] calls[other]).message_id != message_id by {
        if other < k {
            assert(calls[other].message_id != calls[k].message_id);
        } else {
            assert(calls[k].message_id != calls[other].message_id);
        }
    }
}

/// An instance of one channel gets no call from a pass over another.
pub proof fn lemma_other_channels_get_nothing(
    m: Map<Origin, Instance>,
    channel_id: u64,
    hook: Seq<char>,
    payload: NeoMessage,
    calls: Seq<Call>,
    k: int,
)
    requires
        full_pass(m, channel_id, hook, payload, calls),
        0 <= k < calls.len(),
    ensures
        calls[k].channel_id == channel_id,
        calls[k].hook@ == hook,
        m.contains_key((channel_id, calls[k].message_id)),
{
}

/// At most one live instance is anchored to any one message: two instances
/// of the registry with the same channel and message are one and the same.
pub proof fn lemma_one_instance_per_origin(registry: Registry, i: int, j: int)
    requires
        registry.wf(),
        0 <= i < registry.instances().len(),
        0 <= j < registry.instances().len(),
        registry.instances()[i].key() == registry.instances()[j].key(),
    ensures
        i == j,
{
    let s = registry.instances();
    if i < j {
        assert(s[i].key() != s[j].key());
    } else if j < i {
        assert(s[j].key() != s[i].key());
    }
}

/// The instances `s` once the engine of the one anchored to `k` is
/// `engine`.
pub open spec fn with_engine(s: Seq<Instance>, k: Origin, engine: rhai::Engine) -> Seq<Instance> {
    s.update(
        position(s, k),
        Instance { origin: s[position(s, k)].origin, enabled: s[position(s, k)].enabled, engine },
    )
}

/// Lending out the engine of the instance anchored to `k` keeps the origins
/// distinct, and changes nothing but that engine.
pub proof fn lemma_with_engine(s: Seq<Instance>, k: Origin, engine: rhai::Engine)
    requires
        distinct_origins(s),
        holds(s, k),
    ensures
        distinct_origins(with_engine(s, k, engine)),
        as_map(with_engine(s, k, engine)) == as_map(s).insert(
            k,
            Instance { origin: as_map(s)[k].origin, enabled: as_map(s)[k].enabled, engine },
        ),
{
    let i = position(s, k);
    lemma_lookup(s, i);
    lemma_update(s, i, Instance { origin: s[i].origin, enabled: s[i].enabled, engine });
}

/// The live scripts of the process.
pub struct Registry {
    scripts: Vec<Script>,
}

impl View for Registry {
    type V = Map<Origin, Instance>;

    /// The live instances, each under the channel and the message that
    /// anchor it.
    open spec fn view(&self) -> Map<Origin, Instance> {
        as_map(self.instances())
    }
}

impl Registry {
    /// The live instances, in the order in which events reach them.
    pub closed spec fn instances(&self) -> Seq<Instance> {
        self.scripts@.map_values(|s: Script| instance_of(s))
    }

    /// At most one instance is anchored to any one message.
    pub open spec fn wf(&self) -> bool {
        distinct_origins(self.instances())
    }

    /// A registry without scripts.
    pub fn new() -> (registry: Registry)
        ensures
            registry.wf(),
            registry.instances() == Seq::<Instance>::empty(),
            registry@ == Map::<Origin, Instance>::empty(),
    {
        let registry = Registry { scripts: Vec::new() };
        assert(registry.instances() =~= Seq::<Instance>::empty());
        assert(registry@ =~= Map::<Origin, Instance>::empty());
        registry
    }

    /// Where the script anchored to the message stands.
    fn find(&self, channel_id: u64, message_id: u64) -> (found: Option<usize>)
        ensures
            found matches Some(i) ==> i < self.instances().len() && self.instances()[i as int].key()
                == (channel_id, message_id),
            found is None ==> !holds(self.instances(), (channel_id, message_id)),
    {
        let mut i: usize = 0;
        while i < self.scripts.len()
            invariant
                i <= self.scripts.len(),
                self.instances().len() == self.scripts.len(),
                forall|j: int|
                    0 <= j < i ==> (#[trigger] self.instances()[j]).key() != (
                    channel_id,
                    message_id,
                    ),
            decreases self.scripts.len() - i,
        {
            let script = &self.scripts[i];
            if script.source_msg.channel_id == channel_id && script.source_msg.id == message_id {
                return Some(i);
            }
            i += 1;
        }
        None
    }

    /// Tells whether a script is anchored to the message.
    pub fn contains(&self, channel_id: u64, message_id: u64) -> (b: bool)
        ensures
            b == self@.contains_key((channel_id, message_id)),
    {
        self.find(channel_id, message_id).is_some()
    }

    /// Stores `script` under the message that anchors it, in place of the
    /// script that was anchored there, if there was one.
    pub fn insert(&mut self, script: Script)
        requires
            old(self).wf(),
        ensures
            final(self).wf(),
            final(self)@ == old(self)@.insert(instance_of(script).key(), instance_of(script)),
    {
        let ghost x = instance_of(script);
        match self.find(script.source_msg.channel_id, script.source_msg.id) {
            Some(i) => {
                proof {
                    lemma_remove(self.instances(), i as int);
                }
                let ghost before = self.instances();
                let _ = self.scripts.remove(i);
                assert(self.instances() =~= before.remove(i as int));
            },
            None => {},
        }
        let ghost rest = self.instances();
        proof {
            lemma_push(rest, x);
        }
        self.scripts.push(script);
        assert(self.instances() =~= rest.push(x));
        assert(final(self)@ =~= old(self)@.insert(x.key(), x));
    }

    /// Takes the script anchored to the message out of the registry.
    pub fn remove(&mut self, channel_id: u64, message_id: u64) -> (removed: Option<Script>)
        requires
            old(self).wf(),
        ensures
            final(self).wf(),
            final(self)@ == old(self)@.remove((channel_id, message_id)),
            removed is Some <==> old(self)@.contains_key((channel_id, message_id)),
            removed matches Some(script) ==> instance_of(script) == old(self)@[(
                channel_id,
                message_id,
            )],
    {
        match self.find(channel_id, message_id) {
            Some(i) => {
                proof {
                    lemma_remove(self.instances(), i as int);
                    lemma_lookup(self.instances(), i as int);
                }
                let ghost before = self.instances();
                let script = self.scripts.remove(i);
                assert(self.instances() =~= before.remove(i as int));
                Some(script)
            },
            None => {
                assert(final(self)@ =~= old(self)@.remove((channel_id, message_id)));
                None
            },
        }
    }

    /// Routes an event of the channel `channel_id` to the hook `hook` of
    /// every enabled script of that channel: the result holds one call for
    /// each of them, with its own copy of `payload` as the one argument. A
    /// script that is disabled, or anchored in another channel, gets no
    /// call. The registry itself is only read.
    pub fn dispatch(&self, channel_id: u64, hook: &str, payload: &NeoMessage) -> (calls: Vec<Call>)
        requires
            self.wf(),
        ensures
            full_pass(self@, channel_id, hook@, *payload, calls@),
    {
        let ghost inst = self.instances();
        let ghost mut sources: Seq<int> = Seq::empty();
        let mut calls: Vec<Call> = Vec::new();
        let mut i: usize = 0;
        while i < self.scripts.len()
            invariant
                i <= self.scripts.len(),
                self.instances() == inst,
                inst.len() == self.scripts.len(),
                sources.len() == calls.len(),
                forall|k: int|
                    0 <= k < sources.len() ==> {
                        let j = #[trigger] sources[k];
                        &&& 0 <= j < i
                        &&& inst[j].enabled
                        &&& inst[j].key() == (channel_id, calls[k].message_id)
                        &&& calls[k].channel_id == channel_id
                        &&& call_for(inst[j].origin, hook@, seq![*payload], calls[k])
                    },
                forall|a: int, b: int|
                    0 <= a < b < sources.len() ==> #[trigger] sources[a] < #[trigger] sources[b],
                forall|j: int|
                    0 <= j < i && (#[trigger] inst[j]).enabled && inst[j].origin.channel_id
                        == channel_id ==> exists|k: int|
                        0 <= k < sources.len() && #[trigger] sources[k] == j,
            decreases self.scripts.len() - i,
        {
            if self.scripts[i].source_msg.channel_id == channel_id {
                let mut args: Vec<NeoMessage> = Vec::new();
                args.push(payload.clone());
                assert(args@ =~= seq![*payload]);
                match self.scripts[i].notify(hook, args) {
                    Some(call) => {
                        calls.push(call);
                        proof {
                            let ghost before = sources;
                            sources = sources.push(i as int);
                            assert forall|j: int|
                                0 <= j < i + 1 && (#[trigger] inst[j]).enabled
                                    && inst[j].origin.channel_id == channel_id implies exists|
                                k: int,
                            |
                                0 <= k < sources.len() && #[trigger] sources[k] == j by {
                                if j < i {
                                    let k = choose|k: int|
                                        0 <= k < before.len() && #[trigger] before[k] == j;
                                    assert(sources[k] == j);
                                } else {
                                    assert(sources[before.len() as int] == j);
                                }
                            }
                        }
                    },
                    None => {},
                }
            }
            i += 1;
        }
        proof {
            let m = self@;
            assert forall|k: int| 0 <= k < calls@.len() implies {
                let c = #[trigger] calls@[k];
                &&& c.channel_id == channel_id
                &&& m.contains_key((channel_id, c.message_id))
                &&& m[(channel_id, c.message_id)].enabled
                &&& call_for(m[(channel_id, c.message_id)].origin, hook@, seq![*payload], c)
            } by {
                lemma_lookup(inst, sources[k]);
            }
            assert forall|message_id: u64| #[trigger]
                m.contains_key((channel_id, message_id)) && m[(
                    channel_id,
                    message_id,
                )].enabled implies exists|k: int|
                0 <= k < calls@.len() && (#[trigger] calls@[k]).message_id == message_id by {
                let j = position(inst, (channel_id, message_id));
                let k = choose|k: int| 0 <= k < sources.len() && #[trigger] sources[k] == j;
                assert(calls@[k].message_id == message_id);
            }
            assert forall|a: int, b: int| 0 <= a < b < calls@.len() implies (
            #[trigger] calls@[a]).message_id != (#[trigger] calls@[b]).message_id by {
                assert(sources[a] < sources[b]);
                assert(inst[sources[a]].key() != inst[sources[b]].key());
            }
        }
        calls
    }

    /// The engine of the script anchored to the message, to evaluate in.
    /// Whatever is done to the engine, the script keeps its anchor and its
    /// flag, and every other script stays as it is.
    pub fn engine_mut(&mut self, channel_id: u64, message_id: u64) -> (engine: Option<
        &mut rhai::Engine,
    >)
        requires
            old(self).wf(),
        ensures
            engine is Some <==> old(self)@.contains_key((channel_id, message_id)),
            engine matches Some(lent) ==> *lent == old(self)@[(channel_id, message_id)].engine
                && final(self).instances() == with_engine(
                old(self).instances(),
                (channel_id, message_id),
                *final(lent),
            ),
            engine is None ==> final(self).instances() == old(self).instances(),
    {
        match self.find(channel_id, message_id) {
            Some(i) => {
                proof {
                    lemma_lookup(self.instances(), i as int);
                }
                let script = &mut self.scripts[i];
                Some(&mut script.engine)
            },
            None => None,
        }
    }

    /// The script anchored to the message, if there is one.
    pub fn get(&self, channel_id: u64, message_id: u64) -> (found: Option<&Script>)
        requires
            self.wf(),
        ensures
            found is Some <==> self@.contains_key((channel_id, message_id)),
            found matches Some(script) ==> instance_of(*script) == self@[(channel_id, message_id)],
    {
        match self.find(channel_id, message_id) {
            Some(i) => {
                proof {
                    lemma_lookup(self.instances(), i as int);
                }
                Some(&self.scripts[i])
            },
            None => None,
        }
    }

    /// Enables or disables the script anchored to the message. Where no
    /// script is anchored there, or the script already is as `desired` asks,
    /// nothing changes and nothing is shown.
    pub fn set_enabled(&mut self, channel_id: u64, message_id: u64, desired: bool) -> (effects:
        Vec<Effect>)
        requires
            old(self).wf(),
        ensures
            final(self).wf(),
            final(self)@ == with_status(old(self)@, (channel_id, message_id), desired),
            effect_views(effects@) == status_change_effects(
                old(self)@,
                (channel_id, message_id),
                desired,
            ),
    {
        match self.find(channel_id, message_id) {
            Some(i) => {
                let ghost before = self.instances();
                proof {
                    lemma_lookup(before, i as int);
                    lemma_update(
                        before,
                        i as int,
                        Instance {
                            origin: before[i as int].origin,
                            enabled: desired,
                            engine: before[i as int].engine,
                        },
                    );
                }
                let effects = self.scripts[i].set_status(desired);
                assert(self.instances() =~= before.update(
                    i as int,
                    Instance {
                        origin: before[i as int].origin,
                        enabled: desired,
                        engine: before[i as int].engine,
                    },
                ));
                effects
            },
            None => {
                let effects: Vec<Effect> = Vec::new();
                assert(effect_views(effects@) =~= Seq::<EffectView>::empty());
                effects
            },
        }
    }

    /// The number of live scripts, which is the number of messages that
    /// anchor one.
    pub fn len(&self) -> (n: usize)
        requires
            self.wf(),
        ensures
            n == self.instances().len(),
            n == self@.dom().len(),
    {
        proof {
            lemma_size(self.instances());
        }
        self.scripts.len()
    }

    /// Tells whether no script is live.
    pub fn is_empty(&self) -> (b: bool)
        requires
            self.wf(),
        ensures
            b == (self.instances().len() == 0),
            b == (self@.dom().len() == 0),
    {
        proof {
            lemma_size(self.instances());
        }
        self.scripts.len() == 0
    }
}

} // verus!
