use std::cell::RefCell;
use std::rc::Rc;

use neo_scripts::neoapi::{random, register_functionality, sandbox, NeoMessage, NeoUser};
use neo_scripts::sandbox::{EvalFailure, HookOutcome};
use neo_scripts::script::{Argument, Script};
use rhai::{Engine, EvalAltResult, RegisterFn, Scope};

/// Evaluates `text` in `engine`, in a new scope that holds `arguments`, and
/// tells the library how that ended.
fn run(engine: &mut Engine, text: &str, arguments: Vec<Argument>) -> Result<(), EvalFailure> {
    let mut scope = Scope::new();
    for argument in arguments {
        scope.push((argument.name, Box::new(argument.value)));
    }
    match engine.eval_with_scope::<()>(&mut scope, text) {
        Ok(()) => Ok(()),
        Err(error) => {
            let signature = match &error {
                EvalAltResult::ErrorFunctionNotFound(signature) => Some(signature.clone()),
                _ => None,
            };
            Err(EvalFailure::from_report(signature, error.to_string()))
        }
    }
}

/// A provider that lets scripts write lines into a shared log.
struct Slate {
    lines: Rc<RefCell<Vec<String>>>,
}

impl Slate {
    fn clean() -> Slate {
        Slate { lines: Rc::new(RefCell::new(Vec::new())) }
    }

    fn text(&self) -> Vec<String> {
        self.lines.borrow().clone()
    }
}

impl Slate {
    fn bind(&self, engine: &mut Engine, _src_msg: &NeoMessage) {
        let lines = self.lines.clone();
        engine.register_fn("note", move |text: String| {
            lines.borrow_mut().push(text);
        });
    }
}

fn member(id: u64, name: &str, nick: Option<&str>) -> NeoUser {
    NeoUser {
        id,
        name: name.to_string(),
        bot: false,
        avatar: format!("https://cdn.example/avatars/{}.png", id),
        nick: nick.map(|n| n.to_string()),
    }
}

fn said(author: NeoUser, content: &str) -> NeoMessage {
    NeoMessage { id: 77, channel_id: 5, guild_id: Some(1), content: content.to_string(), author }
}

/// Runs the hook `on_message` of `source` on `msg` and hands back what the
/// script noted.
fn noted(source: &str, msg: NeoMessage) -> Vec<String> {
    let slate = Slate::clean();
    let origin = said(member(1, "origin", None), "");
    let mut engine = sandbox();
    slate.bind(&mut engine, &origin);
    let result = run(&mut engine, source, Vec::new());
    let mut script = Script::new(engine, origin, result).0.expect("the source compiles");
    let mut call = script.notify("on_message", vec![msg]).expect("the script is enabled");
    let arguments = std::mem::take(&mut call.arguments);
    let result = run(&mut script.engine, &call.statement, arguments);
    match call.finish(result).outcome {
        HookOutcome::Completed => {}
        HookOutcome::Fault(text) => panic!("the hook raised a fault: {}", text),
        HookOutcome::HookAbsent => panic!("the hook did not run"),
    }
    slate.text()
}

#[test]
fn finds_a_member_by_name_or_nickname() {
    let members = vec![
        member(1, "ada", None),
        member(2, "grace", Some("amazing")),
        member(3, "alan", Some("ada")),
        member(4, "amazing", None),
    ];
    assert_eq!(NeoUser::find(&members, &"grace".to_string()).unwrap().id, 2);
    assert_eq!(NeoUser::find(&members, &"alan".to_string()).unwrap().id, 3);
    assert_eq!(NeoUser::find(&members, &"ada".to_string()).unwrap().id, 1);
    assert_eq!(NeoUser::find(&members, &"amazing".to_string()).unwrap().id, 2);
    assert!(NeoUser::find(&members, &"Ada".to_string()).is_none());
    assert!(NeoUser::find(&members, &"".to_string()).is_none());
    assert!(NeoUser::find(&Vec::new(), &"ada".to_string()).is_none());
    let found = NeoUser::find(&members, &"amazing".to_string()).unwrap();
    assert_eq!(found.name, "grace");
    assert_eq!(found.nick, Some("amazing".to_string()));
    assert_eq!(found.avatar, "https://cdn.example/avatars/2.png");
}

#[test]
fn shows_the_nickname_where_there_is_one() {
    assert_eq!(member(1, "ada", None).nick(), "ada");
    assert_eq!(member(1, "ada", Some("countess")).nick(), "countess");
    assert_eq!(member(1, "ada", Some("")).nick(), "");
}

#[test]
fn hands_out_the_fields_of_a_user_and_of_a_message() {
    let mut user = member(42, "ada", Some("countess"));
    user.bot = true;
    assert_eq!(user.id(), 42);
    assert_eq!(user.name(), "ada");
    assert!(user.is_bot());
    assert_eq!(user.avatar(), "https://cdn.example/avatars/42.png");
    let msg = said(user, "the text");
    assert_eq!(msg.id(), 77);
    assert_eq!(msg.content(), "the text");
    assert_eq!(msg.author().id, 42);
    assert_eq!(msg.author().name, "ada");
    let copy = msg.clone();
    assert_eq!(copy.id, 77);
    assert_eq!(copy.channel_id, 5);
    assert_eq!(copy.guild_id, Some(1));
    assert_eq!(copy.content, "the text");
    assert_eq!(copy.author.nick, Some("countess".to_string()));
    assert!(copy.author.bot);
}

#[test]
fn draws_numbers_within_the_bounds() {
    for _ in 0..200 {
        let n = random(3, 6).expect("there are numbers from 3 to 5");
        assert!(3 <= n && n < 6);
    }
    for _ in 0..20 {
        assert_eq!(random(-7, -6), Some(-7));
    }
    let n = random(i64::MIN, i64::MAX).unwrap();
    assert!(n < i64::MAX);
    let mut seen = [false; 4];
    for _ in 0..400 {
        seen[random(0, 4).unwrap() as usize] = true;
    }
    assert_eq!(seen, [true; 4]);
}

#[test]
fn draws_nothing_from_an_empty_range() {
    assert_eq!(random(5, 5), None);
    assert_eq!(random(6, 5), None);
    assert_eq!(random(i64::MAX, i64::MIN), None);
}

#[test]
fn a_script_reads_the_message_it_is_given() {
    let lines = noted(
        "fn on_message(m) { note(m.content); note(m.author.name); note(m.author.nick); \
         note(m.author.avatar); note(str(m.author.is_bot)); }",
        said(member(9, "ada", Some("countess")), "hello"),
    );
    assert_eq!(
        lines,
        vec!["hello", "ada", "countess", "https://cdn.example/avatars/9.png", "false"]
    );
    let lines = noted(
        "fn on_message(m) { note(m.author.nick); if m.author.id == m.author.id { note(\"same\"); } \
         if m.id == m.id { note(\"same\"); } }",
        said(member(9, "ada", None), "hello"),
    );
    assert_eq!(lines, vec!["ada", "same", "same"]);
}

#[test]
fn a_script_turns_values_into_strings() {
    let lines = noted(
        "fn on_message(m) { note(str(42)); note(str(0 - 17)); note(str(true)); note(str(1 == 2)); }",
        said(member(9, "ada", None), ""),
    );
    assert_eq!(lines, vec!["42", "-17", "true", "false"]);
}

#[test]
fn a_script_looks_into_strings() {
    let lines = noted(
        "fn on_message(m) { \
         note(str(starts_with(m.content, \"!roll\"))); \
         note(str(starts_with(m.content, \"roll\"))); \
         note(str(contains(m.content, \"l 2\"))); \
         note(str(contains(m.content, \"d20\"))); \
         note(str(m.content.length)); }",
        said(member(9, "ada", None), "!roll 20\u{e9}"),
    );
    assert_eq!(lines, vec!["true", "false", "true", "false", "10"]);
}

#[test]
fn a_script_changes_the_case_of_a_string() {
    let lines = noted(
        "fn on_message(m) { note(m.content.uppercase); note(m.content.lowercase); }",
        said(member(9, "ada", None), "Stra\u{df}e 7 \u{c9}t\u{e9}"),
    );
    assert_eq!(lines, vec!["STRASSE 7 \u{c9}T\u{c9}", "stra\u{df}e 7 \u{e9}t\u{e9}"]);
}

#[test]
fn the_functions_of_the_library_are_there_without_a_provider() {
    let mut engine = Engine::new();
    register_functionality(&mut engine);
    assert_eq!(engine.eval::<String>("str(12)").unwrap(), "12");
    assert_eq!(engine.eval::<bool>("starts_with(\"abc\", \"ab\")").unwrap(), true);
    assert_eq!(engine.eval::<bool>("contains(\"abc\", \"d\")").unwrap(), false);
    assert_eq!(engine.eval::<String>("let s = \"abc\"; s.uppercase").unwrap(), "ABC");
    assert_eq!(engine.eval::<String>("let s = \"ABC\"; s.lowercase").unwrap(), "abc");
    assert_eq!(engine.eval::<i64>("let s = \"abc\"; s.length").unwrap(), 3);
    assert!(engine.eval::<String>("reply(1)").is_err());
}

#[test]
fn a_fresh_engine_holds_the_functions_of_the_library() {
    let mut engine = sandbox();
    assert_eq!(engine.eval::<String>("str(true)").unwrap(), "true");
    assert_eq!(engine.eval::<bool>("contains(\"abc\", \"bc\")").unwrap(), true);
    assert_eq!(engine.eval::<i64>("40 + 2").unwrap(), 42);
    assert!(engine.eval::<String>("broadcast(\"x\")").is_err());
}
