//! The three events that the chat platform delivers, and what each of them
//! asks for: the calls to make, the script to create, the edit to follow,
//! the status to change.

use vstd::prelude::*;
use crate::extract::{parse_neo_block, recognize};
use crate::feedback::{effect_views, Effect, EffectView, ReactionType, GREEN_CIRCLE, RED_CIRCLE};
use crate::lifecycle::{creates, Creation};
use crate::neoapi::NeoMessage;
use crate::registry::{
    full_pass, status_change_effects, with_status, Instance, Origin, Registry,
};
use crate::script::Call;

verus! {

/// A message was edited. `content` is the new text, where the edit changed
/// the text.
#[derive(Debug)]
pub struct MessageUpdateEvent {
    pub channel_id: u64,
    pub id: u64,
    pub content: Option<String>,
}

/// Somebody reacted to a message.
#[derive(Debug)]
pub struct Reaction {
    pub channel_id: u64,
    pub message_id: u64,
    /// Who reacted.
    pub user_id: u64,
    pub emoji: ReactionType,
}

/// What a new message asks for: the calls to make, and then the script to
/// create, if the message carries one.
#[derive(Debug)]
pub struct MessagePlan {
    pub calls: Vec<Call>,
    pub creation: Option<Creation>,
}

/// An edit that changed the text of a message. Once the calls of the event
/// are made, it goes to `Registry::replace`.
#[derive(Debug)]
pub struct Edit {
    pub channel_id: u64,
    pub id: u64,
    pub content: String,
}

/// What an edited message asks for: the calls to make, and then the edit to
/// follow, if the text changed.
#[derive(Debug)]
pub struct UpdatePlan {
    pub calls: Vec<Call>,
    pub edit: Option<Edit>,
}

/// Takes the platform's events and keeps the scripts.
pub struct Handler {
    pub scripts: Registry,
}

/// The hook that is called for a new message.
pub open spec fn hook_for_message() -> Seq<char> {
    "on_message"@
}

/// The hook that is called for an edited message.
pub open spec fn hook_for_update() -> Seq<char> {
    "on_message_update"@
}

/// Whether scripts get to see `msg`: it was written in a community, and not
/// by a bot.
pub open spec fn listens(msg: NeoMessage) -> bool {
    msg.guild_id is Some && !msg.author.bot
}

/// The script that a new message asks to create: where scripts get to see
/// the message and it carries a script block, the source in that block,
/// anchored to the message; else none.
pub open spec fn message_creation(msg: NeoMessage) -> Option<(Seq<char>, NeoMessage)> {
    if listens(msg) {
        match recognize(msg.content@) {
            Some(source) => Some((source, msg)),
            None => None,
        }
    } else {
        None
    }
}

/// `edit` is the edit that `event` tells of: the new text for the message
/// of the event, where the event has a new text; else none.
pub open spec fn follows(edit: Option<Edit>, event: MessageUpdateEvent) -> bool {
    match event.content {
        Some(content) => edit matches Some(e) && e.channel_id == event.channel_id && e.id
            == event.id && e.content@ == content@,
        None => edit is None,
    }
}

/// What a reaction asks for: the glyph of an enabled script asks to disable
/// it, the glyph of a disabled script asks to enable it, and any other
/// reaction asks for nothing.
pub open spec fn requested_status(emoji: ReactionType) -> Option<bool> {
    if emoji.shows(GREEN_CIRCLE) {
        Some(false)
    } else if emoji.shows(RED_CIRCLE) {
        Some(true)
    } else {
        None
    }
}

/// What a reaction obtains in the registry `m`: what it asks for, where the
/// one who reacted is known not to be a bot and is the author of a message
/// that anchors a script; else nothing.
pub open spec fn granted_status(
    m: Map<Origin, Instance>,
    reaction: Reaction,
    actor_is_bot: Option<bool>,
) -> Option<bool> {
    let k = (reaction.channel_id, reaction.message_id);
    if actor_is_bot == Some(false) && m.contains_key(k) && m[k].origin.author.id
        == reaction.user_id {
        requested_status(reaction.emoji)
    } else {
        None
    }
}

/// A reaction from anyone but the author of the origin message obtains
/// nothing.
pub proof fn lemma_stranger_obtains_nothing(
    m: Map<Origin, Instance>,
    reaction: Reaction,
    actor_is_bot: Option<bool>,
)
    requires
        m.contains_key((reaction.channel_id, reaction.message_id)),
        m[(reaction.channel_id, reaction.message_id)].origin.author.id != reaction.user_id,
    ensures
        granted_status(m, reaction, actor_is_bot) is None,
{
}

/// The author's reaction with the glyph of an enabled script disables the
/// script anchored to the message, and the one with the glyph of a disabled
/// script enables it.
pub proof fn lemma_author_obtains_status(m: Map<Origin, Instance>, reaction: Reaction)
    requires
        m.contains_key((reaction.channel_id, reaction.message_id)),
        m[(reaction.channel_id, reaction.message_id)].origin.author.id == reaction.user_id,
    ensures
        reaction.emoji.shows(GREEN_CIRCLE) ==> granted_status(m, reaction, Some(false)) == Some(
            false,
        ),
        reaction.emoji.shows(RED_CIRCLE) ==> granted_status(m, reaction, Some(false)) == Some(
            true,
        ),
        with_status(m, (reaction.channel_id, reaction.message_id), false)[(
            reaction.channel_id,
            reaction.message_id,
        )].enabled == false,
        with_status(m, (reaction.channel_id, reaction.message_id), true)[(
            reaction.channel_id,
            reaction.message_id,
        )].enabled == true,
{
    if reaction.emoji.shows(RED_CIRCLE) {
        let text = reaction.emoji->Unicode_0;
        assert(text@[0] == RED_CIRCLE);
        assert(!reaction.emoji.shows(GREEN_CIRCLE));
    }
}

/// Once the author's reaction has disabled a script, no pass over the
/// channel calls it, whatever hook the pass is for; once the author's
/// reaction has enabled it again, every pass calls it.
pub proof fn lemma_disabled_until_enabled_again(
    m: Map<Origin, Instance>,
    reaction: Reaction,
    hook: Seq<char>,
    payload: NeoMessage,
    calls: Seq<Call>,
)
    requires
        granted_status(m, reaction, Some(false)) is Some,
        full_pass(
            with_status(
                m,
                (reaction.channel_id, reaction.message_id),
                granted_status(m, reaction, Some(false))->0,
            ),
            reaction.channel_id,
            hook,
            payload,
            calls,
        ),
    ensures
        granted_status(m, reaction, Some(false)) == Some(false) ==> forall|k: int|
            0 <= k < calls.len() ==> (#[trigger] calls[k]).message_id != reaction.message_id,
        granted_status(m, reaction, Some(false)) == Some(true) ==> exists|k: int|
            0 <= k < calls.len() && (#[trigger] calls[k]).message_id == reaction.message_id,
{
    let k = (reaction.channel_id, reaction.message_id);
    let desired = granted_status(m, reaction, Some(false))->0;
    let after = with_status(m, k, desired);
    assert(after.contains_key(k));
    assert(after[k].enabled == desired);
}

impl Handler {
    /// A handler without scripts.
    pub fn new() -> (handler: Handler)
        ensures
            handler.scripts.wf(),
            handler.scripts@ == Map::<Origin, Instance>::empty(),
    {
        Handler { scripts: Registry::new() }
    }

    /// A new message arrived. A message from outside a community, or from a
    /// bot, is passed over. Else the plan holds a call of the hook
    /// `on_message` for every enabled script of the channel, with the
    /// message as its argument; and where the message carries a script
    /// block, it asks for a script to be created from it once the calls are
    /// made. The registry itself is only read.
    pub fn message(&self, msg: &NeoMessage) -> (plan: MessagePlan)
        requires
            self.scripts.wf(),
        ensures
            if listens(*msg) {
                full_pass(self.scripts@, msg.channel_id, hook_for_message(), *msg, plan.calls@)
            } else {
                plan.calls@.len() == 0
            },
            creates(plan.creation, message_creation(*msg)),
    {
        if msg.guild_id.is_none() || msg.author.bot {
            return MessagePlan { calls: Vec::new(), creation: None };
        }
        let calls = self.scripts.dispatch(msg.channel_id, "on_message", msg);
        let creation = match parse_neo_block(msg.content.as_str()) {
            Some(code) => Some(Creation { source: code.to_owned(), origin: msg.clone() }),
            None => None,
        };
        MessagePlan { calls, creation }
    }

    /// A message was edited. `updated` is the message as it now stands,
    /// where it could be fetched: the plan then holds a call of the hook
    /// `on_message_update` for every enabled script of the channel, with
    /// that message as its argument. Where the edit changed the text, the
    /// plan asks to follow the edit once the calls are made. The registry
    /// itself is only read.
    pub fn message_update(&self, event: &MessageUpdateEvent, updated: Option<&NeoMessage>) -> (plan:
        UpdatePlan)
        requires
            self.scripts.wf(),
        ensures
            match updated {
                Some(now) => full_pass(
                    self.scripts@,
                    event.channel_id,
                    hook_for_update(),
                    *now,
                    plan.calls@,
                ),
                None => plan.calls@.len() == 0,
            },
            follows(plan.edit, *event),
    {
        let calls = match updated {
            Some(updated_msg) => self.scripts.dispatch(
                event.channel_id,
                "on_message_update",
                updated_msg,
            ),
            None => Vec::new(),
        };
        let edit = match &event.content {
            Some(new_content) => Some(
                Edit { channel_id: event.channel_id, id: event.id, content: new_content.clone() },
            ),
            None => None,
        };
        UpdatePlan { calls, edit }
    }

    /// Somebody reacted to a message. `actor_is_bot` tells whether the one
    /// who reacted is a bot, where that could be found out. The reaction
    /// counts only where it is known to come from a person, the message
    /// anchors a script, and that person wrote the message: then the glyph
    /// of an enabled script disables it, and the glyph of a disabled script
    /// enables it.
    pub fn reaction_add(&mut self, reaction: &Reaction, actor_is_bot: Option<bool>) -> (effects:
        Vec<Effect>)
        requires
            old(self).scripts.wf(),
        ensures
            final(self).scripts.wf(),
            match granted_status(old(self).scripts@, *reaction, actor_is_bot) {
                Some(desired) => {
                    &&& final(self).scripts@ == with_status(
                        old(self).scripts@,
                        (reaction.channel_id, reaction.message_id),
                        desired,
                    )
                    &&& effect_views(effects@) == status_change_effects(
                        old(self).scripts@,
                        (reaction.channel_id, reaction.message_id),
                        desired,
                    )
                },
                None => {
                    &&& final(self).scripts@ == old(self).scripts@
                    &&& effect_views(effects@) == Seq::<EffectView>::empty()
                },
            },
    {
        let nothing: Vec<Effect> = Vec::new();
        assert(effect_views(nothing@) =~= Seq::<EffectView>::empty());
        match actor_is_bot {
            Some(false) => {},
            _ => {
                return nothing;
            },
        }
        let by_author = match self.scripts.get(reaction.channel_id, reaction.message_id) {
            Some(script) => reaction.user_id == script.source_msg.author.id,
            None => false,
        };
        if !by_author {
            return nothing;
        }
        if reaction.emoji.is_glyph(GREEN_CIRCLE) {
            self.scripts.set_enabled(reaction.channel_id, reaction.message_id, false)
        } else if reaction.emoji.is_glyph(RED_CIRCLE) {
            self.scripts.set_enabled(reaction.channel_id, reaction.message_id, true)
        } else {
            nothing
        }
    }
}

} // verus!
