//! Runs one script in a sandbox: no files, no modules, no sleeping, a bounded
//! number of operations, and everything it prints captured as text.

use crate::text::{chars_of, join, join_strings, same_text, views};
use rhai::module_resolvers::DummyModuleResolver;
use rhai::{ASTNode, Dynamic, Engine, EvalAltResult, Expr, Stmt};
use std::cell::RefCell;
use std::rc::Rc;
use vstd::prelude::*;
use vstd::string::*;

verus! {

/// The max number of operations that a script can do before it is forcibly
/// halted.
pub const MAX_SCRIPTING_OPS: u64 = 10_000;

/// The largest string, array or map, in bytes or items, a script may build.
pub const MAX_SCRIPTING_SIZE: usize = 65_536;

/// The function that no script may call.
pub open spec fn reserved_call() -> Seq<char> {
    "sleep"@
}

/// Why a script gave no output.
pub enum ScriptError {
    /// The script calls the reserved function; it was not run.
    Forbidden,
    /// The script used up its operations.
    TooManyOperations,
    /// The interpreter refused or aborted the script, with its message.
    Failed(String),
}

/// Why the interpreter stopped before the script had a value.
pub enum Halt {
    /// The progress hook ended the run.
    Budget,
    /// Any other error, with the interpreter's message.
    Fault(String),
}

/// What one run of the interpreter gave: the printed lines in order, and the
/// script's value as text or the reason it has none.
pub struct Evaluation {
    pub printed: Vec<String>,
    pub value: Result<String, Halt>,
}

/// The outcome of executing a script, as plain text.
pub enum Verdict {
    Done(Seq<char>),
    Forbidden,
    TooManyOperations,
    Failed(Seq<char>),
}

/// The outcome that a result of `execute_timed` stands for.
pub open spec fn verdict_of(r: Result<String, ScriptError>) -> Verdict {
    match r {
        Ok(out) => Verdict::Done(out@),
        Err(ScriptError::Forbidden) => Verdict::Forbidden,
        Err(ScriptError::TooManyOperations) => Verdict::TooManyOperations,
        Err(ScriptError::Failed(m)) => Verdict::Failed(m@),
    }
}

/// The outcome made of one run: the printed lines joined by newlines, a
/// newline, and the script's value; or the reason the run stopped.
pub open spec fn collected(e: Evaluation) -> Verdict {
    match e.value {
        Ok(v) => Verdict::Done(join(views(e.printed@), "\n"@) + "\n"@ + v@),
        Err(Halt::Budget) => Verdict::TooManyOperations,
        Err(Halt::Fault(m)) => Verdict::Failed(m@),
    }
}

/// The outcome of the check before the run, given what the scan of the
/// script returned; `None` where the script may run.
pub open spec fn vetted(calls: Result<Set<Seq<char>>, Seq<char>>) -> Option<Verdict> {
    match calls {
        Err(m) => Some(Verdict::Failed(m)),
        Ok(names) => if names.contains(reserved_call()) {
            Some(Verdict::Forbidden)
        } else {
            None
        },
    }
}

/// Whether executing `source` can come to `verdict`: the verdict of the check
/// before the run where that refuses the script, else what some run collects.
pub open spec fn outcome_allowed(source: Seq<char>, verdict: Verdict) -> bool {
    match vetted(calls_of(source)) {
        Some(refused) => verdict == refused,
        None => exists|e: Evaluation| verdict == collected(e),
    }
}

/// The names of the functions that a script calls anywhere in its text, at
/// top level or inside a function it defines, as `rhai` parses it; or the
/// message of the parse error. The names are a set: the order in which the
/// parsed script is walked is not fixed.
pub uninterp spec fn calls_of(source: Seq<char>) -> Result<Set<Seq<char>>, Seq<char>>;

/// `rhai::Engine`, the interpreter, of which nothing is known here.
#[verifier::external_type_specification]
#[verifier::external_body]
pub struct ExEngine(Engine);

/// What the progress hook answers after `count` operations: nothing while
/// the run is within its budget, and the word that ends it once it is past.
pub fn over_budget(count: u64, max_ops: u64) -> (r: Option<String>)
    ensures
        r is Some == (count > max_ops),
        r is Some ==> r->0@ == ScriptError::TooManyOperations.text(),
{
    if count > max_ops {
        Some(String::from_str("Too many operations, bailing out."))
    } else {
        None
    }
}

/// Compiles the script with `rhai::Engine::compile` and walks the result with
/// `AST::walk`, collecting the name of every function call node. The contract
/// only names the set of the collected names, or the parse error's message.
#[verifier::external_body]
fn called_functions(source: &str) -> (r: Result<Vec<String>, String>)
    ensures
        match r {
            Ok(names) => calls_of(source@) == Ok::<Set<Seq<char>>, Seq<char>>(
                views(names@).to_set(),
            ),
            Err(e) => calls_of(source@) == Err::<Set<Seq<char>>, Seq<char>>(e@),
        },
{
    let ast = Engine::new().compile(source).map_err(|e| e.to_string())?;
    let mut names: Vec<String> = Vec::new();
    ast.walk(&mut |path| {
        match path.last() {
            Some(ASTNode::Expr(Expr::FnCall(x, _))) => names.push(x.name.to_string()),
            Some(ASTNode::Expr(Expr::MethodCall(x, _))) => names.push(x.name.to_string()),
            Some(ASTNode::Stmt(Stmt::FnCall(x, _))) => names.push(x.name.to_string()),
            _ => (),
        }
        true
    });
    Ok(names)
}

/// Makes a `rhai::Engine` that resolves no modules, prints no debug output,
/// caps the size of strings, arrays and maps at `max_size`, and asks
/// `over_budget` after every operation whether to stop. The symbol `disabled`
/// is taken out of the language, and the function `idle` is registered with
/// `Engine::register_fn` for a whole number and for a fraction as one that
/// does nothing, in front of the one that the engine ships. Nothing is
/// claimed of the engine.
#[verifier::external_body]
fn sandbox(max_ops: u64, max_size: usize, idle: &str, disabled: &str) -> (engine: Engine) {
    let mut engine = Engine::new();
    engine.disable_symbol(disabled);
    engine.register_fn(idle, |_: rhai::INT| {});
    engine.register_fn(idle, |_: rhai::FLOAT| {});
    engine.set_module_resolver(DummyModuleResolver::new());
    engine.set_max_string_size(max_size);
    engine.set_max_array_size(max_size);
    engine.set_max_map_size(max_size);
    engine.on_debug(|_, _, _| {});
    engine.on_progress(move |n| over_budget(n, max_ops).map(Dynamic::from));
    engine
}

/// Runs the script with `rhai::Engine::eval`, with `on_print` collecting the
/// printed lines. What a script prints and returns may depend on the clock,
/// so nothing is claimed of the result.
#[verifier::external_body]
fn evaluate(engine: Engine, source: &str) -> (r: Evaluation) {
    let mut engine = engine;
    let printed = Rc::new(RefCell::new(Vec::new()));
    let sink = printed.clone();
    engine.on_print(move |t| sink.borrow_mut().push(t.to_string()));
    let value = match engine.eval::<Dynamic>(source) {
        Ok(v) => Ok(v.to_string()),
        Err(e) => match *e {
            EvalAltResult::ErrorTerminated(..) => Err(Halt::Budget),
            other => Err(Halt::Fault(other.to_string())),
        },
    };
    let printed = printed.borrow().clone();
    Evaluation { printed, value }
}

impl ScriptError {
    /// The text that tells a chatter what went wrong.
    pub open spec fn text(&self) -> Seq<char> {
        match self {
            ScriptError::Forbidden => "Calls to sleep are not allowed, declining to run."@,
            ScriptError::TooManyOperations => "Too many operations, bailing out."@,
            ScriptError::Failed(m) => m@,
        }
    }

    /// The error as text that is safe to show to a chatter as it is.
    pub fn message(&self) -> (r: String)
        ensures
            r@ == self.text(),
    {
        match self {
            ScriptError::Forbidden => String::from_str(
                "Calls to sleep are not allowed, declining to run.",
            ),
            ScriptError::TooManyOperations => String::from_str("Too many operations, bailing out."),
            ScriptError::Failed(m) => m.clone(),
        }
    }
}

/// Whether `name` is among `names`.
pub fn mentions(names: &Vec<String>, name: &str) -> (r: bool)
    ensures
        r == views(names@).contains(name@),
{
    let wanted = chars_of(name);
    let mut i: usize = 0;
    while i < names.len()
        invariant
            i <= names.len(),
            wanted@ == name@,
            forall|k: int| 0 <= k < i ==> views(names@)[k] != name@,
        decreases names.len() - i,
    {
        let here = chars_of(names[i].as_str());
        if same_text(&here, &wanted) {
            proof {
                assert(views(names@)[i as int] == name@);
            }
            return true;
        }
        i += 1;
    }
    false
}

/// Decides from the scan of a script whether it may run: not if it did not
/// parse, and not if it calls the reserved function anywhere.
pub fn vet(calls: Result<Vec<String>, String>) -> (r: Result<(), ScriptError>)
    ensures
        match vetted(
            match calls {
                Ok(names) => Ok(views(names@).to_set()),
                Err(m) => Err(m@),
            },
        ) {
            Some(verdict) => r is Err && verdict_of(Err(r->Err_0)) == verdict,
            None => r is Ok,
        },
{
    match calls {
        Err(m) => Err(ScriptError::Failed(m)),
        Ok(names) => {
            if mentions(&names, "sleep") {
                Err(ScriptError::Forbidden)
            } else {
                Ok(())
            }
        },
    }
}

/// Turns one run into the output or the error: the printed lines joined by
/// newlines, then a newline and the script's value.
pub fn collect(evaluation: Evaluation) -> (r: Result<String, ScriptError>)
    ensures
        verdict_of(r) == collected(evaluation),
{
    let Evaluation { printed, value } = evaluation;
    match value {
        Ok(v) => {
            let mut out = join_strings(&printed, "\n");
            out.append("\n");
            out.append(v.as_str());
            Ok(out)
        },
        Err(Halt::Budget) => Err(ScriptError::TooManyOperations),
        Err(Halt::Fault(m)) => Err(ScriptError::Failed(m)),
    }
}

/// Executes `text` with a budget of `max_time` operations. A script that
/// does not parse, or that calls the reserved function, is refused before
/// anything runs; otherwise the result is collected from one run, in an
/// engine in which the reserved function does nothing by whatever way it is
/// reached, and in which no text can be evaluated as a script.
pub fn execute_timed(text: &str, max_time: u64) -> (r: Result<String, ScriptError>)
    ensures
        outcome_allowed(text@, verdict_of(r)),
{
    match vet(called_functions(text)) {
        Err(e) => Err(e),
        Ok(()) => {
            let evaluation = evaluate(sandbox(max_time, MAX_SCRIPTING_SIZE, "sleep", "eval"), text);
            collect(evaluation)
        },
    }
}

/// Executes `text` with the default budget of operations.
pub fn execute(text: &str) -> (r: Result<String, ScriptError>)
    ensures
        outcome_allowed(text@, verdict_of(r)),
{
    execute_timed(text, MAX_SCRIPTING_OPS)
}

} // verus!
