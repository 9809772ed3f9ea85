//! What the library asks the chat platform to show on a message: the four
//! kinds of signal, their glyphs, and the effects that carry them.

use vstd::prelude::*;

verus! {

pub const GREEN_CIRCLE: char = '\u{1F7E2}';

pub const RED_CIRCLE: char = '\u{1F534}';

pub const SKULL: char = '\u{1F480}';

pub const HALO_SMILEY: char = '\u{1F607}';

pub const ARROW_LOOP: char = '\u{1F504}';

/// A reaction as the chat platform knows it: a piece of text that renders as
/// an emoji, or an emoji that a community uploaded.
#[derive(Debug)]
pub enum ReactionType {
    Custom { animated: bool, id: u64, name: Option<String> },
    Unicode(String),
}

impl ReactionType {
    /// Whether this reaction is the text made of the one character `glyph`.
    pub open spec fn shows(self, glyph: char) -> bool {
        self matches ReactionType::Unicode(text) && text@ == seq![glyph]
    }

    /// Tells whether this reaction is the one-character text `glyph`.
    pub fn is_glyph(&self, glyph: char) -> (b: bool)
        ensures
            b == self.shows(glyph),
    {
        match self {
            ReactionType::Unicode(text) => {
                let chars = text.as_str();
                if chars.unicode_len() == 1 {
                    let c = chars.get_char(0);
                    assert(text@ =~= seq![c]);
                    assert(seq![glyph][0] == glyph);
                    c == glyph
                } else {
                    assert(seq![glyph].len() == 1);
                    false
                }
            },
            ReactionType::Custom { .. } => false,
        }
    }
}

/// The reaction made of the one character `glyph`.
fn unicode_reaction(glyph: char) -> (r: ReactionType)
    requires
        glyph == GREEN_CIRCLE || glyph == RED_CIRCLE || glyph == SKULL || glyph == HALO_SMILEY
            || glyph == ARROW_LOOP,
    ensures
        r.shows(glyph),
{
    proof {
        reveal_strlit("\u{1F7E2}");
        reveal_strlit("\u{1F534}");
        reveal_strlit("\u{1F480}");
        reveal_strlit("\u{1F607}");
        reveal_strlit("\u{1F504}");
    }
    let text = if glyph == GREEN_CIRCLE {
        "\u{1F7E2}"
    } else if glyph == RED_CIRCLE {
        "\u{1F534}"
    } else if glyph == SKULL {
        "\u{1F480}"
    } else if glyph == HALO_SMILEY {
        "\u{1F607}"
    } else {
        "\u{1F504}"
    };
    assert(text@ =~= seq![glyph]);
    ReactionType::Unicode(text.to_owned())
}

/// The reaction that marks a script as accepted or enabled.
pub fn react_success() -> (r: ReactionType)
    ensures
        r.shows(GREEN_CIRCLE),
{
    unicode_reaction(GREEN_CIRCLE)
}

/// The reaction that marks a script as rejected or disabled.
pub fn react_failure() -> (r: ReactionType)
    ensures
        r.shows(RED_CIRCLE),
{
    unicode_reaction(RED_CIRCLE)
}

/// The reaction that marks a hook that raised a fault.
pub fn react_skull() -> (r: ReactionType)
    ensures
        r.shows(SKULL),
{
    unicode_reaction(SKULL)
}

/// The reaction that marks a hook that ran to its end.
pub fn react_halo() -> (r: ReactionType)
    ensures
        r.shows(HALO_SMILEY),
{
    unicode_reaction(HALO_SMILEY)
}

/// The reaction that shows two arrows in a circle.
pub fn react_loop() -> (r: ReactionType)
    ensures
        r.shows(ARROW_LOOP),
{
    unicode_reaction(ARROW_LOOP)
}

/// The four kinds of signal that a script's origin message can carry.
#[derive(Clone, Copy, Debug, PartialEq, Eq, Structural)]
pub enum Signal {
    /// The script compiled, or was enabled again.
    Success,
    /// The script did not compile, or was disabled.
    Failure,
    /// A hook of the script ran to its end.
    Executed,
    /// A hook of the script raised a fault.
    Fault,
}

impl Signal {
    /// The character that stands for this kind of signal.
    pub open spec fn glyph_of(self) -> char {
        match self {
            Signal::Success => GREEN_CIRCLE,
            Signal::Failure => RED_CIRCLE,
            Signal::Executed => HALO_SMILEY,
            Signal::Fault => SKULL,
        }
    }

    /// The character that stands for this kind of signal.
    pub fn glyph(&self) -> (c: char)
        ensures
            c == self.glyph_of(),
    {
        match self {
            Signal::Success => GREEN_CIRCLE,
            Signal::Failure => RED_CIRCLE,
            Signal::Executed => HALO_SMILEY,
            Signal::Fault => SKULL,
        }
    }

    /// The reaction that shows this kind of signal.
    pub fn reaction(&self) -> (r: ReactionType)
        ensures
            r.shows(self.glyph_of()),
    {
        match self {
            Signal::Success => react_success(),
            Signal::Failure => react_failure(),
            Signal::Executed => react_halo(),
            Signal::Fault => react_skull(),
        }
    }
}

/// Two kinds of signal never share a glyph.
pub proof fn lemma_signals_are_distinct(a: Signal, b: Signal)
    ensures
        a.glyph_of() == b.glyph_of() <==> a == b,
{
}

/// One thing to do on the chat platform, on the message `message_id` of the
/// channel `channel_id`.
#[derive(Debug)]
pub enum Effect {
    /// Take every reaction off the message.
    ClearReactions { channel_id: u64, message_id: u64 },
    /// Put the reaction of `signal` on the message.
    React { channel_id: u64, message_id: u64, signal: Signal },
    /// Answer the message with `text`, addressed to its author `user_id`.
    Reply { channel_id: u64, message_id: u64, user_id: u64, text: String },
}

/// An effect, with its text as a sequence of characters.
pub ghost enum EffectView {
    ClearReactions { channel_id: u64, message_id: u64 },
    React { channel_id: u64, message_id: u64, signal: Signal },
    Reply { channel_id: u64, message_id: u64, user_id: u64, text: Seq<char> },
}

impl View for Effect {
    type V = EffectView;

    open spec fn view(&self) -> EffectView {
        match *self {
            Effect::ClearReactions { channel_id, message_id } => EffectView::ClearReactions {
                channel_id,
                message_id,
            },
            Effect::React { channel_id, message_id, signal } => EffectView::React {
                channel_id,
                message_id,
                signal,
            },
            Effect::Reply { channel_id, message_id, user_id, text } => EffectView::Reply {
                channel_id,
                message_id,
                user_id,
                text: text@,
            },
        }
    }
}

/// The views of a list of effects, in order.
pub open spec fn effect_views(effects: Seq<Effect>) -> Seq<EffectView> {
    effects.map_values(|e: Effect| e@)
}

/// How many of `effects` show the signal `signal`.
pub open spec fn signal_count(effects: Seq<EffectView>, signal: Signal) -> nat
    decreases effects.len(),
{
    if effects.len() == 0 {
        0
    } else {
        let rest = signal_count(effects.drop_last(), signal);
        if effects.last() matches EffectView::React { signal: shown, .. } && shown == signal {
            rest + 1
        } else {
            rest
        }
    }
}

} // verus!
