//! The script interpreter, as far as the library relies on it: the engine
//! that holds one script, the text of a call, and what an evaluation can end
//! in. The library never evaluates: it says what is to be evaluated, and
//! takes the result.

use vstd::prelude::*;
use rhai::RegisterFn;
use crate::feedback::Signal;
use crate::text::{chars_of, matches_at};

verus! {

/// `rhai::Engine`, the interpreter with the functions it knows. It is taken
/// as it comes: nothing of what it holds is read here.
#[verifier::external_type_specification]
#[verifier::external_body]
pub struct ExEngine(rhai::Engine);

/// `rhai::Engine::new` makes an engine that holds the interpreter's default
/// operators and no script. Nothing is claimed of the engine itself.
pub assume_specification[ rhai::Engine::new ]() -> (engine: rhai::Engine)
;

/// The names under which an engine holds functions.
pub uninterp spec fn engine_functions(engine: rhai::Engine) -> Set<Seq<char>>;

/// The name under which an engine holds the getter of the property `name`.
pub open spec fn getter_name(name: Seq<char>) -> Seq<char> {
    seq!['g', 'e', 't', '$'] + name
}

/// `rhai::Engine::register_get`: the engine holds `get_fn` as the getter of
/// the property `name` of the type `T`, under the name `get$` followed by
/// `name`. The names it held before, it keeps.
#[verifier::external_body]
pub(crate) fn register_get<T: Clone + 'static, U: Clone + 'static, F: Fn(&T) -> U + 'static>(
    engine: &mut rhai::Engine,
    name: &str,
    get_fn: F,
)
    requires
        forall|this: T| #[trigger] get_fn.requires((&this,)),
    ensures
        engine_functions(*final(engine)) == engine_functions(*old(engine)).insert(
            getter_name(name@),
        ),
{
    engine.register_get(name, move |this: &mut T| get_fn(this));
}

/// `rhai::RegisterFn::register_fn`, for a function of one argument: the
/// engine holds `f` under `name`. The names it held before, it keeps.
#[verifier::external_body]
pub(crate) fn register_fn1<A: Clone + 'static, R: Clone + 'static, F: Fn(A) -> R + 'static>(
    engine: &mut rhai::Engine,
    name: &str,
    f: F,
)
    requires
        forall|a: A| #[trigger] f.requires((a,)),
    ensures
        engine_functions(*final(engine)) == engine_functions(*old(engine)).insert(name@),
{
    engine.register_fn(name, f);
}

/// `rhai::RegisterFn::register_fn`, for a function of two arguments: the
/// engine holds `f` under `name`. The names it held before, it keeps.
#[verifier::external_body]
pub(crate) fn register_fn2<
    A: Clone + 'static,
    B: Clone + 'static,
    R: Clone + 'static,
    F: Fn(A, B) -> R + 'static,
>(engine: &mut rhai::Engine, name: &str, f: F)
    requires
        forall|a: A, b: B| #[trigger] f.requires((a, b)),
    ensures
        engine_functions(*final(engine)) == engine_functions(*old(engine)).insert(name@),
{
    engine.register_fn(name, f);
}

/// Why an evaluation did not run to its end, as the one who evaluated tells
/// it.
#[derive(Debug)]
pub enum EvalFailure {
    /// A call named a function that the engine does not hold. `signature` is
    /// the name that was called, a space, and the argument types in
    /// parentheses.
    FunctionNotFound { signature: String },
    /// Anything else, in the words of the interpreter, or of the one who
    /// evaluated where the interpreter itself broke off.
    Other { description: String },
}

impl EvalFailure {
    /// The words that tell a person what went wrong.
    pub open spec fn diagnostic(self) -> Seq<char> {
        match self {
            EvalFailure::FunctionNotFound { signature } => not_found_prefix() + signature@,
            EvalFailure::Other { description } => description@,
        }
    }

    /// The words that tell a person what went wrong.
    pub fn describe(&self) -> (text: String)
        ensures
            text@ == self.diagnostic(),
    {
        match self {
            EvalFailure::FunctionNotFound { signature } => {
                proof {
                    reveal_strlit("Function not found: ");
                }
                let mut text = "Function not found: ".to_owned();
                assert(text@ =~= not_found_prefix());
                text.append(signature.as_str());
                text
            },
            EvalFailure::Other { description } => description.clone(),
        }
    }
}

/// How the diagnostic of a missing function begins.
pub open spec fn not_found_prefix() -> Seq<char> {
    seq![
        'F', 'u', 'n', 'c', 't', 'i', 'o', 'n', ' ', 'n', 'o', 't', ' ', 'f', 'o', 'u', 'n', 'd',
        ':', ' ',
    ]
}

impl EvalFailure {
    /// The failure that a report of the interpreter amounts to: a missing
    /// function where the report names one, with the signature it names;
    /// else any other failure, with the words of the report.
    pub open spec fn reported(signature: Option<String>, words: String) -> EvalFailure {
        match signature {
            Some(signature) => EvalFailure::FunctionNotFound { signature },
            None => EvalFailure::Other { description: words },
        }
    }

    /// Sorts a report of the interpreter into the missing function and the
    /// rest. `signature` is what the report names as missing, if anything,
    /// and `words` is how the report words what went wrong.
    pub fn from_report(signature: Option<String>, words: String) -> (failure: EvalFailure)
        ensures
            failure == EvalFailure::reported(signature, words),
    {
        match signature {
            Some(signature) => EvalFailure::FunctionNotFound { signature },
            None => EvalFailure::Other { description: words },
        }
    }
}

/// How the call of one hook ended.
#[derive(Debug)]
pub enum HookOutcome {
    /// The hook ran to its end.
    Completed,
    /// The script does not define the hook.
    HookAbsent,
    /// The hook raised a fault, worded in the text.
    Fault(String),
}

/// How the call of one hook ended, with the fault's words as a sequence.
pub ghost enum HookOutcomeView {
    Completed,
    HookAbsent,
    Fault(Seq<char>),
}

impl View for HookOutcome {
    type V = HookOutcomeView;

    open spec fn view(&self) -> HookOutcomeView {
        match *self {
            HookOutcome::Completed => HookOutcomeView::Completed,
            HookOutcome::HookAbsent => HookOutcomeView::HookAbsent,
            HookOutcome::Fault(text) => HookOutcomeView::Fault(text@),
        }
    }
}

/// The signal that an outcome shows on the script's origin message: a hook
/// that ran shows that it ran, a fault shows a fault, and an absent hook
/// shows nothing.
pub open spec fn signal_of(outcome: HookOutcomeView) -> Option<Signal> {
    match outcome {
        HookOutcomeView::Completed => Some(Signal::Executed),
        HookOutcomeView::HookAbsent => None,
        HookOutcomeView::Fault(_) => Some(Signal::Fault),
    }
}

impl HookOutcome {
    /// The signal that the outcome shows on the script's origin message.
    pub fn signal(&self) -> (signal: Option<Signal>)
        ensures
            signal == signal_of(self@),
    {
        match self {
            HookOutcome::Completed => Some(Signal::Executed),
            HookOutcome::HookAbsent => None,
            HookOutcome::Fault(_) => Some(Signal::Fault),
        }
    }

    /// The words of the fault, where the outcome is one.
    pub fn fault(&self) -> (text: Option<String>)
        ensures
            match self@ {
                HookOutcomeView::Fault(words) => text matches Some(t) && t@ == words,
                _ => text is None,
            },
    {
        match self {
            HookOutcome::Fault(words) => Some(words.clone()),
            _ => None,
        }
    }
}

/// Whether `signature`, as the interpreter reports a missing function, names
/// the function `hook`.
pub open spec fn names_function(signature: Seq<char>, hook: Seq<char>) -> bool {
    (hook + seq![' ', '(']).is_prefix_of(signature)
}

/// What the evaluation of a call of `hook` amounts to: the hook is absent
/// where the interpreter missed the function `hook` itself, and every other
/// failure is a fault.
pub open spec fn classified(hook: Seq<char>, result: Result<(), EvalFailure>) -> HookOutcomeView {
    match result {
        Ok(_) => HookOutcomeView::Completed,
        Err(EvalFailure::FunctionNotFound { signature }) => if names_function(signature@, hook) {
            HookOutcomeView::HookAbsent
        } else {
            HookOutcomeView::Fault(not_found_prefix() + signature@)
        },
        Err(EvalFailure::Other { description }) => HookOutcomeView::Fault(description@),
    }
}

/// Sorts the result of evaluating a call of `hook` into the three outcomes.
pub fn classify(hook: &str, result: Result<(), EvalFailure>) -> (outcome: HookOutcome)
    ensures
        outcome@ == classified(hook@, result),
{
    match result {
        Ok(_) => HookOutcome::Completed,
        Err(failure) => {
            let absent = match &failure {
                EvalFailure::FunctionNotFound { signature } => {
                    proof {
                        reveal_strlit(" (");
                    }
                    let mut wanted = hook.to_owned();
                    wanted.append(" (");
                    assert(wanted@ =~= hook@ + seq![' ', '(']);
                    let wanted_chars = chars_of(wanted.as_str());
                    let signature_chars = chars_of(signature.as_str());
                    matches_at(&signature_chars, &wanted_chars, 0)
                },
                EvalFailure::Other { .. } => false,
            };
            if absent {
                HookOutcome::HookAbsent
            } else {
                HookOutcome::Fault(failure.describe())
            }
        },
    }
}

/// A script that lacks the hook it is called for is passed over in
/// silence: the call shows no signal, and is no fault.
pub proof fn lemma_absent_hook_is_silent(hook: Seq<char>, signature: String)
    requires
        names_function(signature@, hook),
    ensures
        classified(hook, Err(EvalFailure::FunctionNotFound { signature }))
            == HookOutcomeView::HookAbsent,
        signal_of(classified(hook, Err(EvalFailure::FunctionNotFound { signature }))) is None,
{
}

/// A call that fails for any reason but the absence of its hook is a fault,
/// and shows the fault signal.
pub proof fn lemma_failure_is_fault(hook: Seq<char>, failure: EvalFailure)
    requires
        !(failure matches EvalFailure::FunctionNotFound { signature } && names_function(
            signature@,
            hook,
        )),
    ensures
        classified(hook, Err(failure)) == HookOutcomeView::Fault(failure.diagnostic()),
        signal_of(classified(hook, Err(failure))) == Some(Signal::Fault),
{
}

/// The name of the variable that holds the argument `i` of a call.
pub open spec fn argument_name(i: nat) -> Seq<char> {
    seq!['_', '_', 'a', 'r', 'g', 'u', 'm', 'e', 'n', 't'] + crate::text::decimal(i)
}

/// The names of the first `n` arguments, with commas between them.
pub open spec fn argument_list(n: nat) -> Seq<char>
    decreases n,
{
    if n == 0 {
        Seq::<char>::empty()
    } else if n == 1 {
        argument_name(0)
    } else {
        argument_list((n - 1) as nat) + seq![','] + argument_name((n - 1) as nat)
    }
}

/// The statement that calls `function` with `n` arguments.
pub open spec fn call_text(function: Seq<char>, n: nat) -> Seq<char> {
    function + seq!['('] + argument_list(n) + seq![')', ';']
}

/// The name of the variable that holds the argument `i` of a call.
pub fn name_argument(i: usize) -> (name: String)
    ensures
        name@ == argument_name(i as nat),
{
    proof {
        reveal_strlit("__argument");
    }
    let mut name = "__argument".to_owned();
    assert(name@ =~= seq!['_', '_', 'a', 'r', 'g', 'u', 'm', 'e', 'n', 't']);
    crate::text::push_decimal(&mut name, i as u64);
    name
}

/// The statement that calls `function` with `count` arguments, each by the
/// name of the variable that holds it. `function` goes into the statement as
/// it stands.
pub fn call_statement(function: &str, count: usize) -> (call: String)
    ensures
        call@ == call_text(function@, count as nat),
{
    proof {
        reveal_strlit("(");
        reveal_strlit(");");
    }
    let mut call = function.to_owned();
    call.append("(");
    let mut i: usize = 0;
    while i < count
        invariant
            i <= count,
            call@ == function@ + seq!['('] + argument_list(i as nat),
        decreases count - i,
    {
        let name = name_argument(i);
        if i > 0 {
            call.append(",");
        }
        call.append(name.as_str());
        proof {
            reveal_strlit(",");
            if i > 0 {
                assert(call@ =~= function@ + seq!['('] + (argument_list(i as nat) + seq![',']
                    + argument_name(i as nat)));
            } else {
                assert(call@ =~= function@ + seq!['('] + argument_name(0));
            }
        }
        i += 1;
    }
    call.append(");");
    assert(call@ =~= call_text(function@, count as nat));
    call
}

} // verus!
