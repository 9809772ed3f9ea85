//! How scripts come and go: a script is created from a message that carries
//! a script block, and replaced or removed when that message is edited. The
//! source of a script is evaluated outside; here it is said what is to be
//! evaluated, and what follows from the result.

use vstd::prelude::*;
use crate::extract::{parse_neo_block, recognize};
use crate::feedback::{effect_views, signal_count, Effect, EffectView, Signal};
use crate::neoapi::NeoMessage;
use crate::registry::{holds, instance_of, lemma_lookup, position, Instance, Origin, Registry};
use crate::sandbox::EvalFailure;
use crate::script::{compile_effects, Script};

verus! {

/// A script that is to be created: `source` is to be evaluated in a fresh
/// engine that holds the functions of a script anchored to `origin`, and the
/// engine and the result then go to `Registry::conclude`.
#[derive(Debug)]
pub struct Creation {
    pub source: String,
    pub origin: NeoMessage,
}

/// What an edit led to: the effects to show, and then the script to create,
/// if there is one.
#[derive(Debug)]
pub struct Replacement {
    pub effects: Vec<Effect>,
    pub creation: Option<Creation>,
}

/// `creation` is the creation of a script from the source and the origin
/// that `wanted` holds, or none where `wanted` holds none.
pub open spec fn creates(
    creation: Option<Creation>,
    wanted: Option<(Seq<char>, NeoMessage)>,
) -> bool {
    match wanted {
        Some((source, origin)) => creation matches Some(c) && c.source@ == source && c.origin
            == origin,
        None => creation is None,
    }
}

/// The registry and the effects after the source of a script anchored to
/// `origin` was evaluated in `engine` with `result`, starting from the
/// registry `m`: success stores an enabled instance under the origin, with
/// that engine; failure stores nothing.
pub open spec fn created(
    m: Map<Origin, Instance>,
    origin: NeoMessage,
    engine: rhai::Engine,
    result: Result<(), EvalFailure>,
) -> (Map<Origin, Instance>, Seq<EffectView>) {
    (
        if result is Ok {
            m.insert((origin.channel_id, origin.id), Instance { origin, enabled: true, engine })
        } else {
            m
        },
        compile_effects(origin, result),
    )
}

/// What is shown when the message `k` is edited, in the registry `m`: the
/// signals of the instance anchored to it are cleared, where there is one.
pub open spec fn edit_effects(m: Map<Origin, Instance>, k: Origin) -> Seq<EffectView> {
    if m.contains_key(k) {
        seq![EffectView::ClearReactions { channel_id: k.0, message_id: k.1 }]
    } else {
        Seq::<EffectView>::empty()
    }
}

/// The script that an edit of the message `k` to `content` asks to create,
/// in the registry `m`: where an instance is anchored to the message and
/// the new content carries a script block, the source in that block,
/// anchored to the same message; else none.
pub open spec fn edit_creation(m: Map<Origin, Instance>, k: Origin, content: Seq<char>) -> Option<
    (Seq<char>, NeoMessage),
> {
    if m.contains_key(k) {
        match recognize(content) {
            Some(source) => Some((source, m[k].origin)),
            None => None,
        }
    } else {
        None
    }
}

/// The registry and the effects once an edit of the message `k` to
/// `content` has run its course, starting from the registry `m`, where the
/// new source, if there is one, was evaluated in `engine` with `result`. The instance
/// goes and its signals are cleared first; then the new script is settled.
pub open spec fn replaced(
    m: Map<Origin, Instance>,
    k: Origin,
    content: Seq<char>,
    engine: rhai::Engine,
    result: Result<(), EvalFailure>,
) -> (Map<Origin, Instance>, Seq<EffectView>) {
    match edit_creation(m, k, content) {
        Some((_, origin)) => {
            let after = created(m.remove(k), origin, engine, result);
            (after.0, edit_effects(m, k) + after.1)
        },
        None => (m.remove(k), edit_effects(m, k)),
    }
}

/// An instance stands under the channel and the message that anchor it.
pub proof fn lemma_anchor(registry: Registry, k: Origin)
    requires
        registry.wf(),
        registry@.contains_key(k),
    ensures
        registry@[k].key() == k,
{
    let s = registry.instances();
    let i = position(s, k);
    assert(holds(s, k));
    lemma_lookup(s, i);
}

/// A source that does not compile stores no instance, and shows one failure
/// signal and no other signal.
pub proof fn lemma_rejected_source(
    m: Map<Origin, Instance>,
    origin: NeoMessage,
    engine: rhai::Engine,
    failure: EvalFailure,
)
    ensures
        created(m, origin, engine, Err(failure)).0 == m,
        signal_count(created(m, origin, engine, Err(failure)).1, Signal::Failure) == 1,
        signal_count(created(m, origin, engine, Err(failure)).1, Signal::Success) == 0,
        signal_count(created(m, origin, engine, Err(failure)).1, Signal::Executed) == 0,
        signal_count(created(m, origin, engine, Err(failure)).1, Signal::Fault) == 0,
{
    let effects = created(m, origin, engine, Err(failure)).1;
    assert(effects.drop_last().drop_last() =~= Seq::<EffectView>::empty());
    reveal_with_fuel(signal_count, 3);
}

/// A source that compiles stores an enabled instance under its origin, and
/// shows one success signal and no other signal.
pub proof fn lemma_accepted_source(
    m: Map<Origin, Instance>,
    origin: NeoMessage,
    engine: rhai::Engine,
)
    ensures
        created(m, origin, engine, Ok(())).0.contains_key((origin.channel_id, origin.id)),
        created(m, origin, engine, Ok(())).0[(origin.channel_id, origin.id)] == (Instance {
            origin,
            enabled: true,
            engine,
        }),
        signal_count(created(m, origin, engine, Ok(())).1, Signal::Success) == 1,
        signal_count(created(m, origin, engine, Ok(())).1, Signal::Failure) == 0,
{
    let effects = created(m, origin, engine, Ok(())).1;
    assert(effects.drop_last() =~= Seq::<EffectView>::empty());
    reveal_with_fuel(signal_count, 2);
}

/// An edit to a text without a script block removes the instance anchored to
/// the message, whatever it was, and asks for no script to be created; no
/// other instance changes.
pub proof fn lemma_edit_without_block(
    m: Map<Origin, Instance>,
    k: Origin,
    content: Seq<char>,
    engine: rhai::Engine,
    result: Result<(), EvalFailure>,
)
    requires
        recognize(content) is None,
    ensures
        edit_creation(m, k, content) is None,
        replaced(m, k, content, engine, result).0 == m.remove(k),
        !replaced(m, k, content, engine, result).0.contains_key(k),
        signal_count(replaced(m, k, content, engine, result).1, Signal::Success) == 0,
        signal_count(replaced(m, k, content, engine, result).1, Signal::Failure) == 0,
{
    if m.contains_key(k) {
        let effects = replaced(m, k, content, engine, result).1;
        assert(effects.drop_last() =~= Seq::<EffectView>::empty());
        reveal_with_fuel(signal_count, 2);
    }
}

/// An edit to a text with a script block, of a message that anchors an
/// instance: the old instance goes and its signals are cleared first; then
/// the new source is evaluated. Where it compiles, a fresh enabled instance
/// stands under the same message, with the new engine, and the success
/// signal is shown again;
/// where it does not, the message anchors nothing any more, and the
/// diagnostic and the failure signal are shown.
pub proof fn lemma_edit_with_block(
    m: Map<Origin, Instance>,
    k: Origin,
    content: Seq<char>,
    engine: rhai::Engine,
    result: Result<(), EvalFailure>,
)
    requires
        m.contains_key(k),
        m[k].key() == k,
        recognize(content) is Some,
    ensures
        edit_creation(m, k, content) == Some((recognize(content)->0, m[k].origin)),
        replaced(m, k, content, engine, result).1 == seq![
            EffectView::ClearReactions { channel_id: k.0, message_id: k.1 },
        ] + compile_effects(m[k].origin, result),
        result is Ok ==> replaced(m, k, content, engine, result).0 == m.insert(
            k,
            Instance { origin: m[k].origin, enabled: true, engine },
        ),
        result is Err ==> replaced(m, k, content, engine, result).0 == m.remove(k),
{
    if result is Ok {
        assert(m.remove(k).insert(k, Instance { origin: m[k].origin, enabled: true, engine }) =~= m.insert(
            k,
            Instance { origin: m[k].origin, enabled: true, engine },
        ));
    }
}

impl Registry {
    /// Settles what becomes of a script anchored to `origin` once its source
    /// has been evaluated in `engine` with `result`: on success the script
    /// is stored, enabled, and the success signal is shown; on failure
    /// nothing is stored, and the diagnostic and one failure signal are
    /// shown.
    pub fn conclude(
        &mut self,
        engine: rhai::Engine,
        origin: NeoMessage,
        result: Result<(), EvalFailure>,
    ) -> (effects: Vec<Effect>)
        requires
            old(self).wf(),
        ensures
            final(self).wf(),
            (final(self)@, effect_views(effects@)) == created(old(self)@, origin, engine, result),
    {
        let (script, effects) = Script::new(engine, origin, result);
        match script {
            Some(script) => {
                assert(instance_of(script) == Instance { origin, enabled: true, engine });
                self.insert(script);
            },
            None => {},
        }
        effects
    }

    /// Follows an edit of the message `message_id` of the channel
    /// `channel_id` to `new_content`. Where no script is anchored to the
    /// message, nothing happens. Else that script is removed and its signals
    /// are cleared; and where the new content still carries a script block,
    /// the result asks for a script to be created from it, anchored to the
    /// same message.
    pub fn replace(&mut self, channel_id: u64, message_id: u64, new_content: &str) -> (replacement:
        Replacement)
        requires
            old(self).wf(),
        ensures
            final(self).wf(),
            final(self)@ == old(self)@.remove((channel_id, message_id)),
            effect_views(replacement.effects@) == edit_effects(
                old(self)@,
                (channel_id, message_id),
            ),
            creates(
                replacement.creation,
                edit_creation(old(self)@, (channel_id, message_id), new_content@),
            ),
    {
        let mut effects: Vec<Effect> = Vec::new();
        match self.remove(channel_id, message_id) {
            None => {
                assert(effect_views(effects@) =~= Seq::<EffectView>::empty());
                Replacement { effects, creation: None }
            },
            Some(old_script) => {
                effects.push(Effect::ClearReactions { channel_id, message_id });
                assert(effect_views(effects@) =~= seq![
                    EffectView::ClearReactions { channel_id, message_id },
                ]);
                let creation = match parse_neo_block(new_content) {
                    Some(code) => Some(
                        Creation { source: code.to_owned(), origin: old_script.source_msg },
                    ),
                    None => None,
                };
                Replacement { effects, creation }
            },
        }
    }
}

} // verus!
