use std::cell::RefCell;
use std::rc::Rc;

use neo_scripts::feedback::{react_failure, react_halo, react_success, Effect, ReactionType, Signal};
use neo_scripts::handler::{Handler, MessageUpdateEvent, Reaction};
use neo_scripts::lifecycle::Creation;
use neo_scripts::neoapi::{sandbox, NeoMessage, NeoUser};
use neo_scripts::registry::Registry;
use neo_scripts::sandbox::{EvalFailure, HookOutcome};
use neo_scripts::script::{Argument, Call, Delivery};
use rhai::{Engine, EvalAltResult, RegisterFn, Scope};

/// Evaluates `text` in `engine`, in a new scope that holds `arguments`, and
/// tells the library how that ended.
fn run(engine: &mut Engine, text: &str, arguments: Vec<Argument>) -> Result<(), EvalFailure> {
    let mut scope = Scope::new();
    for argument in arguments {
        scope.push((argument.name, Box::new(argument.value)));
    }
    match engine.eval_with_scope::<()>(&mut scope, text) {
        Ok(()) => Ok(()),
        Err(error) => {
            let signature = match &error {
                EvalAltResult::ErrorFunctionNotFound(signature) => Some(signature.clone()),
                _ => None,
            };
            Err(EvalFailure::from_report(signature, error.to_string()))
        }
    }
}

/// What one event led to: how the calls ended, and the effects to show.
struct Report {
    deliveries: Vec<Delivery>,
    effects: Vec<Effect>,
}

/// Makes the calls of a plan, and tells how each ended.
fn make_calls(scripts: &mut Registry, calls: Vec<Call>) -> Vec<Delivery> {
    let mut deliveries = Vec::new();
    for mut call in calls {
        let arguments = std::mem::take(&mut call.arguments);
        let engine = scripts.engine_mut(call.channel_id, call.message_id).expect("it is stored");
        let result = run(engine, &call.statement, arguments);
        deliveries.push(call.finish(result));
    }
    deliveries
}

/// Compiles and settles the script that a plan asks for.
fn settle(scripts: &mut Registry, ledger: &Ledger, creation: Creation) -> Vec<Effect> {
    let mut engine = sandbox();
    ledger.bind(&mut engine, &creation.origin);
    let result = run(&mut engine, &creation.source, Vec::new());
    scripts.conclude(engine, creation.origin, result)
}

/// Takes a new message through the handler, to its end.
fn on_message(handler: &mut Handler, ledger: &Ledger, msg: &NeoMessage) -> Report {
    let plan = handler.message(msg);
    let deliveries = make_calls(&mut handler.scripts, plan.calls);
    let effects = match plan.creation {
        Some(creation) => settle(&mut handler.scripts, ledger, creation),
        None => Vec::new(),
    };
    Report { deliveries, effects }
}

/// Takes an edit through the handler, to its end.
fn on_update(
    handler: &mut Handler,
    ledger: &Ledger,
    event: &MessageUpdateEvent,
    updated: Option<&NeoMessage>,
) -> Report {
    let plan = handler.message_update(event, updated);
    let deliveries = make_calls(&mut handler.scripts, plan.calls);
    let mut effects = Vec::new();
    if let Some(edit) = plan.edit {
        let replacement = handler.scripts.replace(edit.channel_id, edit.id, &edit.content);
        effects.extend(replacement.effects);
        if let Some(creation) = replacement.creation {
            effects.extend(settle(&mut handler.scripts, ledger, creation));
        }
    }
    Report { deliveries, effects }
}

/// A provider that lets scripts write lines into a shared log.
struct Ledger {
    lines: Rc<RefCell<Vec<String>>>,
}

impl Ledger {
    fn open() -> Ledger {
        Ledger { lines: Rc::new(RefCell::new(Vec::new())) }
    }

    fn entries(&self) -> Vec<String> {
        let mut lines = self.lines.borrow().clone();
        lines.sort();
        lines
    }

    fn clear(&self) {
        self.lines.borrow_mut().clear();
    }
}

impl Ledger {
    fn bind(&self, engine: &mut Engine, src_msg: &NeoMessage) {
        let lines = self.lines.clone();
        let anchor = src_msg.id;
        engine.register_fn("note", move |text: String| {
            lines.borrow_mut().push(format!("{}: {}", anchor, text));
        });
    }
}

const AUTHOR: u64 = 500;
const STRANGER: u64 = 501;

fn written(channel_id: u64, id: u64, author: u64, content: &str) -> NeoMessage {
    NeoMessage {
        id,
        channel_id,
        guild_id: Some(1),
        content: content.to_string(),
        author: NeoUser {
            id: author,
            name: "ada".to_string(),
            bot: false,
            avatar: String::new(),
            nick: None,
        },
    }
}

fn block(source: &str) -> String {
    format!("```neo\n{}\n```", source)
}

fn calls(report: &Report) -> Vec<String> {
    let mut all: Vec<String> = report
        .deliveries
        .iter()
        .map(|d| {
            let outcome = match &d.outcome {
                HookOutcome::Completed => "completed".to_string(),
                HookOutcome::HookAbsent => "absent".to_string(),
                HookOutcome::Fault(text) => format!("fault: {}", text),
            };
            format!("{}/{} {}", d.channel_id, d.message_id, outcome)
        })
        .collect();
    all.sort();
    all
}

fn effects_of(effects: &Vec<Effect>) -> Vec<String> {
    effects
        .iter()
        .map(|effect| match effect {
            Effect::ClearReactions { channel_id, message_id } => {
                format!("clear {}/{}", channel_id, message_id)
            }
            Effect::React { channel_id, message_id, signal } => {
                format!("react {}/{} {:?}", channel_id, message_id, signal)
            }
            Effect::Reply { channel_id, message_id, user_id, text } => {
                format!("reply {}/{} @{} {}", channel_id, message_id, user_id, text)
            }
        })
        .collect()
}

fn failures_in(effects: &Vec<Effect>) -> usize {
    effects.iter().filter(|e| matches!(e, Effect::React { signal: Signal::Failure, .. })).count()
}

fn reacted(channel_id: u64, message_id: u64, user_id: u64, emoji: ReactionType) -> Reaction {
    Reaction { channel_id, message_id, user_id, emoji }
}

const ECHO: &str = "fn on_message(m) { note(m.content); }";

#[test]
fn a_message_with_a_block_creates_a_script() {
    let ledger = Ledger::open();
    let mut handler = Handler::new();
    let report = on_message(&mut handler, &ledger, &written(1, 10, AUTHOR, &block(ECHO)));
    assert!(report.deliveries.is_empty());
    assert_eq!(effects_of(&report.effects), vec!["react 1/10 Success"]);
    assert!(handler.scripts.contains(1, 10));
    assert!(handler.scripts.get(1, 10).unwrap().enabled);
    assert_eq!(handler.scripts.get(1, 10).unwrap().source_msg.author.id, AUTHOR);
    assert!(ledger.entries().is_empty());
}

#[test]
fn a_plain_message_reaches_the_scripts_and_creates_none() {
    let ledger = Ledger::open();
    let mut handler = Handler::new();
    on_message(&mut handler, &ledger, &written(1, 10, AUTHOR, &block(ECHO)));
    let report = on_message(&mut handler, &ledger, &written(1, 11, STRANGER, "hello there"));
    assert_eq!(calls(&report), vec!["1/10 completed"]);
    assert_eq!(report.deliveries[0].hook, "on_message");
    assert!(report.effects.is_empty());
    assert_eq!(ledger.entries(), vec!["10: hello there"]);
    assert_eq!(handler.scripts.len(), 1);
    assert!(!handler.scripts.contains(1, 11));
}

#[test]
fn a_new_script_does_not_see_the_message_that_defines_it() {
    let ledger = Ledger::open();
    let mut handler = Handler::new();
    on_message(&mut handler, &ledger, &written(1, 10, AUTHOR, &block(ECHO)));
    let second = block("fn on_message(m) { note(\"second\"); }");
    let report = on_message(&mut handler, &ledger, &written(1, 11, AUTHOR, &second));
    assert_eq!(calls(&report), vec!["1/10 completed"]);
    assert_eq!(effects_of(&report.effects), vec!["react 1/11 Success"]);
    assert_eq!(ledger.entries(), vec![format!("10: {}", second)]);
    assert_eq!(handler.scripts.len(), 2);
}

#[test]
fn messages_from_bots_and_from_outside_a_community_are_passed_over() {
    let ledger = Ledger::open();
    let mut handler = Handler::new();
    on_message(&mut handler, &ledger, &written(1, 10, AUTHOR, &block(ECHO)));

    let mut from_bot = written(1, 11, STRANGER, &block(ECHO));
    from_bot.author.bot = true;
    let report = on_message(&mut handler, &ledger, &from_bot);
    assert!(report.deliveries.is_empty());
    assert!(report.effects.is_empty());

    let mut direct = written(1, 12, STRANGER, &block(ECHO));
    direct.guild_id = None;
    let report = on_message(&mut handler, &ledger, &direct);
    assert!(report.deliveries.is_empty());
    assert!(report.effects.is_empty());

    assert!(ledger.entries().is_empty());
    assert_eq!(handler.scripts.len(), 1);
}

#[test]
fn an_invalid_source_stores_nothing_and_shows_one_failure() {
    let ledger = Ledger::open();
    let mut handler = Handler::new();
    let broken = written(1, 10, AUTHOR, &block("fn on_message(m { }"));
    let report = on_message(&mut handler, &ledger, &broken);
    assert_eq!(
        effects_of(&report.effects),
        vec!["reply 1/10 @500 Fehler: Function argument types do not match", "react 1/10 Failure"]
    );
    assert_eq!(failures_in(&report.effects), 1);
    assert!(handler.scripts.is_empty());

    let report = on_message(&mut handler, &ledger, &written(1, 11, STRANGER, "anything"));
    assert!(report.deliveries.is_empty());
    assert!(report.effects.is_empty());
    let update = MessageUpdateEvent { channel_id: 1, id: 10, content: None };
    let report = on_update(&mut handler, &ledger, &update, None);
    assert!(report.effects.is_empty());
    let effects = handler.reaction_add(&reacted(1, 10, AUTHOR, react_failure()), Some(false));
    assert!(effects.is_empty());
    assert!(handler.scripts.is_empty());

    let report = on_message(&mut handler, &ledger, &broken);
    assert_eq!(failures_in(&report.effects), 1);
    assert_eq!(report.effects.len(), 2);
    assert!(handler.scripts.is_empty());
}

#[test]
fn an_edit_reaches_the_scripts_with_the_message_as_it_now_stands() {
    let ledger = Ledger::open();
    let mut handler = Handler::new();
    let listener = block("fn on_message_update(m) { note(m.content); }");
    on_message(&mut handler, &ledger, &written(1, 10, AUTHOR, &listener));
    on_message(&mut handler, &ledger, &written(1, 11, AUTHOR, &block(ECHO)));
    ledger.clear();

    let update = MessageUpdateEvent { channel_id: 1, id: 40, content: Some("now".to_string()) };
    let now = written(1, 40, STRANGER, "now");
    let report = on_update(&mut handler, &ledger, &update, Some(&now));
    assert_eq!(calls(&report), vec!["1/10 completed", "1/11 absent"]);
    assert_eq!(report.deliveries[0].hook, "on_message_update");
    assert_eq!(report.deliveries[1].hook, "on_message_update");
    assert!(report.effects.is_empty());
    assert_eq!(ledger.entries(), vec!["10: now"]);

    ledger.clear();
    let report = on_update(&mut handler, &ledger, &update, None);
    assert!(report.deliveries.is_empty());
    assert!(report.effects.is_empty());
    assert!(ledger.entries().is_empty());
    assert_eq!(handler.scripts.len(), 2);
}

#[test]
fn an_edit_to_plain_text_removes_the_script() {
    let ledger = Ledger::open();
    let mut handler = Handler::new();
    on_message(&mut handler, &ledger, &written(1, 10, AUTHOR, &block(ECHO)));
    on_message(&mut handler, &ledger, &written(1, 11, AUTHOR, &block(ECHO)));
    let update =
        MessageUpdateEvent { channel_id: 1, id: 10, content: Some("never mind".to_string()) };
    let report = on_update(&mut handler, &ledger, &update, None);
    assert_eq!(effects_of(&report.effects), vec!["clear 1/10"]);
    assert!(!handler.scripts.contains(1, 10));
    assert!(handler.scripts.contains(1, 11));

    ledger.clear();
    let report = on_message(&mut handler, &ledger, &written(1, 12, STRANGER, "hi"));
    assert_eq!(calls(&report), vec!["1/11 completed"]);
    assert_eq!(ledger.entries(), vec!["11: hi"]);
}

#[test]
fn an_edit_to_a_new_script_replaces_the_old_one() {
    let ledger = Ledger::open();
    let mut handler = Handler::new();
    on_message(&mut handler, &ledger, &written(1, 10, AUTHOR, &block("fn on_message(m) { note(\"old\"); }")));
    handler.reaction_add(&reacted(1, 10, AUTHOR, react_success()), Some(false));
    assert!(!handler.scripts.get(1, 10).unwrap().enabled);

    let new_text = block("fn on_message(m) { note(\"new\"); }");
    let update = MessageUpdateEvent { channel_id: 1, id: 10, content: Some(new_text.clone()) };
    let now = written(1, 10, AUTHOR, &new_text);
    let report = on_update(&mut handler, &ledger, &update, Some(&now));
    assert!(report.deliveries.is_empty());
    assert_eq!(effects_of(&report.effects), vec!["clear 1/10", "react 1/10 Success"]);
    assert!(handler.scripts.get(1, 10).unwrap().enabled);
    assert_eq!(handler.scripts.get(1, 10).unwrap().source_msg.author.id, AUTHOR);
    assert_eq!(handler.scripts.len(), 1);

    let report = on_message(&mut handler, &ledger, &written(1, 12, STRANGER, "hi"));
    assert_eq!(calls(&report), vec!["1/10 completed"]);
    assert_eq!(ledger.entries(), vec!["10: new"]);
}

#[test]
fn an_edit_without_new_text_keeps_the_script() {
    let ledger = Ledger::open();
    let mut handler = Handler::new();
    on_message(&mut handler, &ledger, &written(1, 10, AUTHOR, &block(ECHO)));
    let update = MessageUpdateEvent { channel_id: 1, id: 10, content: None };
    let report = on_update(&mut handler, &ledger, &update, None);
    assert!(report.effects.is_empty());
    assert!(handler.scripts.contains(1, 10));
}

#[test]
fn an_edit_that_adds_a_block_to_a_plain_message_creates_nothing() {
    let ledger = Ledger::open();
    let mut handler = Handler::new();
    let update = MessageUpdateEvent { channel_id: 1, id: 10, content: Some(block(ECHO)) };
    let report = on_update(&mut handler, &ledger, &update, None);
    assert!(report.effects.is_empty());
    assert!(handler.scripts.is_empty());
}

#[test]
fn the_author_disables_and_enables_the_script() {
    let ledger = Ledger::open();
    let mut handler = Handler::new();
    on_message(&mut handler, &ledger, &written(1, 10, AUTHOR, &block(ECHO)));

    let effects = handler.reaction_add(&reacted(1, 10, AUTHOR, react_success()), Some(false));
    assert_eq!(effects_of(&effects), vec!["clear 1/10", "react 1/10 Failure"]);
    assert!(!handler.scripts.get(1, 10).unwrap().enabled);
    let report = on_message(&mut handler, &ledger, &written(1, 11, STRANGER, "hi"));
    assert!(report.deliveries.is_empty());
    assert!(ledger.entries().is_empty());

    let effects = handler.reaction_add(&reacted(1, 10, AUTHOR, react_success()), Some(false));
    assert!(effects.is_empty());
    assert!(!handler.scripts.get(1, 10).unwrap().enabled);

    let effects = handler.reaction_add(&reacted(1, 10, AUTHOR, react_failure()), Some(false));
    assert_eq!(effects_of(&effects), vec!["clear 1/10", "react 1/10 Success"]);
    assert!(handler.scripts.get(1, 10).unwrap().enabled);
    let report = on_message(&mut handler, &ledger, &written(1, 12, STRANGER, "ho"));
    assert_eq!(calls(&report), vec!["1/10 completed"]);
    assert_eq!(ledger.entries(), vec!["10: ho"]);

    let effects = handler.reaction_add(&reacted(1, 10, AUTHOR, react_failure()), Some(false));
    assert!(effects.is_empty());
    assert!(handler.scripts.get(1, 10).unwrap().enabled);
}

#[test]
fn a_reaction_of_anyone_else_changes_nothing() {
    let ledger = Ledger::open();
    let mut handler = Handler::new();
    on_message(&mut handler, &ledger, &written(1, 10, AUTHOR, &block(ECHO)));

    let effects = handler.reaction_add(&reacted(1, 10, STRANGER, react_success()), Some(false));
    assert!(effects.is_empty());
    assert!(handler.scripts.get(1, 10).unwrap().enabled);

    handler.reaction_add(&reacted(1, 10, AUTHOR, react_success()), Some(false));
    let effects = handler.reaction_add(&reacted(1, 10, STRANGER, react_failure()), Some(false));
    assert!(effects.is_empty());
    assert!(!handler.scripts.get(1, 10).unwrap().enabled);
}

#[test]
fn a_reaction_of_a_bot_or_of_someone_unknown_changes_nothing() {
    let ledger = Ledger::open();
    let mut handler = Handler::new();
    on_message(&mut handler, &ledger, &written(1, 10, AUTHOR, &block(ECHO)));
    let effects = handler.reaction_add(&reacted(1, 10, AUTHOR, react_success()), Some(true));
    assert!(effects.is_empty());
    let effects = handler.reaction_add(&reacted(1, 10, AUTHOR, react_success()), None);
    assert!(effects.is_empty());
    assert!(handler.scripts.get(1, 10).unwrap().enabled);
}

#[test]
fn other_reactions_and_other_messages_change_nothing() {
    let ledger = Ledger::open();
    let mut handler = Handler::new();
    on_message(&mut handler, &ledger, &written(1, 10, AUTHOR, &block(ECHO)));
    let effects = handler.reaction_add(&reacted(1, 10, AUTHOR, react_halo()), Some(false));
    assert!(effects.is_empty());
    let custom = ReactionType::Custom { animated: false, id: 3, name: None };
    let effects = handler.reaction_add(&reacted(1, 10, AUTHOR, custom), Some(false));
    assert!(effects.is_empty());
    let effects = handler.reaction_add(&reacted(1, 11, AUTHOR, react_success()), Some(false));
    assert!(effects.is_empty());
    let effects = handler.reaction_add(&reacted(2, 10, AUTHOR, react_success()), Some(false));
    assert!(effects.is_empty());
    assert!(handler.scripts.get(1, 10).unwrap().enabled);
    assert_eq!(handler.scripts.len(), 1);
}

#[test]
fn a_new_message_asks_for_calls_and_for_a_creation() {
    let ledger = Ledger::open();
    let mut handler = Handler::new();
    on_message(&mut handler, &ledger, &written(1, 10, AUTHOR, &block(ECHO)));
    on_message(&mut handler, &ledger, &written(1, 11, AUTHOR, &block(ECHO)));
    handler.reaction_add(&reacted(1, 11, AUTHOR, react_success()), Some(false));
    ledger.clear();

    let msg = written(1, 12, STRANGER, &block("note(\"made\");"));
    let plan = handler.message(&msg);
    assert_eq!(plan.calls.len(), 1);
    assert_eq!(plan.calls[0].message_id, 10);
    assert_eq!(plan.calls[0].hook, "on_message");
    assert_eq!(plan.calls[0].statement, "on_message(__argument0);");
    assert_eq!(plan.calls[0].arguments.len(), 1);
    assert_eq!(plan.calls[0].arguments[0].value.id, 12);
    assert_eq!(plan.calls[0].arguments[0].value.content, msg.content);
    let creation = plan.creation.expect("the message carries a block");
    assert_eq!(creation.source, "\nnote(\"made\");\n");
    assert_eq!(creation.origin.id, 12);
    assert_eq!(creation.origin.author.id, STRANGER);
    assert_eq!(handler.scripts.len(), 2);
    assert!(ledger.entries().is_empty());

    let plan = handler.message(&written(1, 13, STRANGER, "plain"));
    assert_eq!(plan.calls.len(), 1);
    assert!(plan.creation.is_none());
}

#[test]
fn an_edit_asks_for_calls_and_for_the_edit_to_be_followed() {
    let ledger = Ledger::open();
    let mut handler = Handler::new();
    on_message(&mut handler, &ledger, &written(1, 10, AUTHOR, &block(ECHO)));

    let update = MessageUpdateEvent { channel_id: 1, id: 10, content: Some("new".to_string()) };
    let now = written(1, 10, AUTHOR, "new");
    let plan = handler.message_update(&update, Some(&now));
    assert_eq!(plan.calls.len(), 1);
    assert_eq!(plan.calls[0].hook, "on_message_update");
    assert_eq!(plan.calls[0].statement, "on_message_update(__argument0);");
    assert_eq!(plan.calls[0].arguments[0].value.content, "new");
    let edit = plan.edit.expect("the text changed");
    assert_eq!((edit.channel_id, edit.id), (1, 10));
    assert_eq!(edit.content, "new");
    assert!(handler.scripts.contains(1, 10));

    let plan = handler.message_update(&update, None);
    assert!(plan.calls.is_empty());
    assert!(plan.edit.is_some());

    let silent = MessageUpdateEvent { channel_id: 1, id: 10, content: None };
    let plan = handler.message_update(&silent, Some(&now));
    assert_eq!(plan.calls.len(), 1);
    assert!(plan.edit.is_none());
}
