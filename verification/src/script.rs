//! One script: the engine that holds its compiled source, the message that
//! defined it, and whether it currently takes events. A script says what a
//! call of one of its hooks hands to the interpreter, and what the result of
//! the call amounts to.

use vstd::prelude::*;
use crate::feedback::{effect_views, Effect, EffectView, Signal};
use crate::neoapi::NeoMessage;
use crate::sandbox::{
    argument_name, call_statement, call_text, classified, classify, name_argument, signal_of,
    EvalFailure, HookOutcome,
};

verus! {

/// A script that lives in the registry.
pub struct Script {
    /// The message whose body defined the script.
    pub source_msg: NeoMessage,
    pub engine: rhai::Engine,
    pub enabled: bool,
}

/// One argument of a call: the value, and the name of the variable that
/// holds it while the call runs.
#[derive(Debug)]
pub struct Argument {
    pub name: String,
    pub value: NeoMessage,
}

/// One call of a hook, as it goes to the interpreter: `statement` is to be
/// evaluated in the engine of the script anchored to the message
/// `message_id` of the channel `channel_id`, in a new scope that holds
/// `arguments`, in order, and nothing else.
#[derive(Debug)]
pub struct Call {
    pub channel_id: u64,
    pub message_id: u64,
    pub hook: String,
    pub statement: String,
    pub arguments: Vec<Argument>,
}

/// `call` is the call of the hook `function` of the script anchored to
/// `origin` with the arguments `args`: the statement calls `function` with
/// as many variables as there are arguments, and argument `i` stands under
/// the name of variable `i`.
pub open spec fn call_for(
    origin: NeoMessage,
    function: Seq<char>,
    args: Seq<NeoMessage>,
    call: Call,
) -> bool {
    &&& call.channel_id == origin.channel_id
    &&& call.message_id == origin.id
    &&& call.hook@ == function
    &&& call.statement@ == call_text(function, args.len())
    &&& call.arguments@.len() == args.len()
    &&& forall|i: int|
        0 <= i < args.len() ==> (#[trigger] call.arguments@[i]).name@ == argument_name(i as nat)
            && call.arguments@[i].value == args[i]
}

/// One call that was made: the hook `hook` of the script anchored to the
/// message `message_id` of the channel `channel_id` was called, and the call
/// ended in `outcome`.
#[derive(Debug)]
pub struct Delivery {
    pub channel_id: u64,
    pub message_id: u64,
    pub hook: String,
    pub outcome: HookOutcome,
}

impl Delivery {
    /// What the call shows on the script's origin message.
    pub open spec fn shown(self) -> Option<EffectView> {
        match signal_of(self.outcome@) {
            Some(signal) => Some(
                EffectView::React {
                    channel_id: self.channel_id,
                    message_id: self.message_id,
                    signal,
                },
            ),
            None => None,
        }
    }

    /// What the call shows on the script's origin message: the signal of
    /// its outcome, where the outcome has one.
    pub fn effect(&self) -> (effect: Option<Effect>)
        ensures
            match self.shown() {
                Some(shown) => effect matches Some(e) && e@ == shown,
                None => effect is None,
            },
    {
        match self.outcome.signal() {
            Some(signal) => Some(
                Effect::React { channel_id: self.channel_id, message_id: self.message_id, signal },
            ),
            None => None,
        }
    }
}

impl Call {
    /// What the call amounts to once the interpreter has evaluated its
    /// statement with `result`: the hook ran, or is absent, or raised a
    /// fault.
    pub fn finish(&self, result: Result<(), EvalFailure>) -> (delivery: Delivery)
        ensures
            delivery.channel_id == self.channel_id,
            delivery.message_id == self.message_id,
            delivery.hook@ == self.hook@,
            delivery.outcome@ == classified(self.hook@, result),
    {
        Delivery {
            channel_id: self.channel_id,
            message_id: self.message_id,
            hook: self.hook.clone(),
            outcome: classify(self.hook.as_str(), result),
        }
    }
}

/// How the reply to a script that did not compile begins.
pub open spec fn complaint_prefix() -> Seq<char> {
    seq!['F', 'e', 'h', 'l', 'e', 'r', ':', ' ']
}

/// What the author of `origin` is shown once the script's source has been
/// evaluated: the success signal, or the diagnostic and the failure signal.
pub open spec fn compile_effects(origin: NeoMessage, result: Result<(), EvalFailure>) -> Seq<
    EffectView,
> {
    match result {
        Ok(_) => seq![
            EffectView::React {
                channel_id: origin.channel_id,
                message_id: origin.id,
                signal: Signal::Success,
            },
        ],
        Err(failure) => seq![
            EffectView::Reply {
                channel_id: origin.channel_id,
                message_id: origin.id,
                user_id: origin.author.id,
                text: complaint_prefix() + failure.diagnostic(),
            },
            EffectView::React {
                channel_id: origin.channel_id,
                message_id: origin.id,
                signal: Signal::Failure,
            },
        ],
    }
}

/// What the author of `origin` is shown when the script changes to
/// `enabled`: the old signals go, and the one of the new state comes.
pub open spec fn status_effects(origin: NeoMessage, enabled: bool) -> Seq<EffectView> {
    seq![
        EffectView::ClearReactions { channel_id: origin.channel_id, message_id: origin.id },
        EffectView::React {
            channel_id: origin.channel_id,
            message_id: origin.id,
            signal: if enabled {
                Signal::Success
            } else {
                Signal::Failure
            },
        },
    ]
}

/// The arguments of a call, each under the name of its variable: the first
/// under the name of variable 0, the next under that of variable 1, and so
/// on.
fn name_arguments(args: Vec<NeoMessage>) -> (arguments: Vec<Argument>)
    ensures
        arguments@.len() == args@.len(),
        forall|i: int|
            0 <= i < args@.len() ==> (#[trigger] arguments@[i]).name@ == argument_name(i as nat)
                && arguments@[i].value == args@[i],
{
    let ghost given = args@;
    let count = args.len();
    let mut arguments: Vec<Argument> = Vec::new();
    let mut i: usize = 0;
    for value in it: args
        invariant
            i == it.index(),
            it.seq() == given,
            given.len() == count,
            arguments@.len() == i,
            forall|j: int|
                0 <= j < i ==> (#[trigger] arguments@[j]).name@ == argument_name(j as nat)
                    && arguments@[j].value == given[j],
    {
        arguments.push(Argument { name: name_argument(i), value });
        i += 1;
    }
    arguments
}

impl Script {
    /// Settles what becomes of a script once its source has been evaluated
    /// in `engine` with the given `result`. Where the source compiled, the
    /// script comes back enabled, anchored to `source_msg`, with the success
    /// signal. Where it did not, no script comes back, and the effects are
    /// the diagnostic and one failure signal.
    pub fn new(
        engine: rhai::Engine,
        source_msg: NeoMessage,
        result: Result<(), EvalFailure>,
    ) -> (created: (Option<Script>, Vec<Effect>))
        ensures
            created.0 is Some <==> result is Ok,
            created.0 matches Some(script) ==> script.enabled && script.source_msg == source_msg
                && script.engine == engine,
            effect_views(created.1@) == compile_effects(source_msg, result),
    {
        let channel_id = source_msg.channel_id;
        let message_id = source_msg.id;
        let user_id = source_msg.author.id;
        let mut effects: Vec<Effect> = Vec::new();
        match result {
            Ok(_) => {
                effects.push(Effect::React { channel_id, message_id, signal: Signal::Success });
                assert(effect_views(effects@) =~= compile_effects(source_msg, result));
                (Some(Script { source_msg, engine, enabled: true }), effects)
            },
            Err(failure) => {
                proof {
                    reveal_strlit("Fehler: ");
                }
                let mut text = "Fehler: ".to_owned();
                assert(text@ =~= complaint_prefix());
                let diagnostic = failure.describe();
                text.append(diagnostic.as_str());
                effects.push(Effect::Reply { channel_id, message_id, user_id, text });
                effects.push(Effect::React { channel_id, message_id, signal: Signal::Failure });
                assert(effect_views(effects@) =~= compile_effects(source_msg, result));
                (None, effects)
            },
        }
    }

    /// Makes the call of the hook `function` of the script with `args`. A
    /// disabled script is not called: there is no call. For an enabled one
    /// the call is the statement that calls `function`, with the arguments
    /// in the order given.
    pub fn notify(&self, function: &str, args: Vec<NeoMessage>) -> (call: Option<Call>)
        ensures
            call is Some <==> self.enabled,
            call matches Some(c) ==> call_for(self.source_msg, function@, args@, c),
    {
        if !self.enabled {
            return None;
        }
        let statement = call_statement(function, args.len());
        let arguments = name_arguments(args);
        Some(
            Call {
                channel_id: self.source_msg.channel_id,
                message_id: self.source_msg.id,
                hook: function.to_owned(),
                statement,
                arguments,
            },
        )
    }

    /// Enables or disables the script. Where it already is as `enabled`
    /// asks, nothing happens. Else the flag changes, and the effects clear
    /// the old signals and show the one of the new state.
    pub fn set_status(&mut self, enabled: bool) -> (effects: Vec<Effect>)
        ensures
            final(self).enabled == enabled,
            final(self).source_msg == old(self).source_msg,
            final(self).engine == old(self).engine,
            effect_views(effects@) == if old(self).enabled == enabled {
                Seq::<EffectView>::empty()
            } else {
                status_effects(old(self).source_msg, enabled)
            },
    {
        let mut effects: Vec<Effect> = Vec::new();
        if self.enabled == enabled {
            assert(effect_views(effects@) =~= Seq::<EffectView>::empty());
            return effects;
        }
        let channel_id = self.source_msg.channel_id;
        let message_id = self.source_msg.id;
        self.enabled = enabled;
        effects.push(Effect::ClearReactions { channel_id, message_id });
        effects.push(
            Effect::React {
                channel_id,
                message_id,
                signal: if enabled {
                    Signal::Success
                } else {
                    Signal::Failure
                },
            },
        );
        assert(effect_views(effects@) =~= status_effects(old(self).source_msg, enabled));
        effects
    }
}

} // verus!
