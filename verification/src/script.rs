//! Compiling a script and evaluating it for one cell.
//!
//! The expression language is the `rhai` crate's. What this module proves is
//! its own part: which functions and which bindings a script is given.

use crate::canvas::{cell_at, cell_index, Cell, CELLS, HEIGHT, WIDTH};
use crate::ieee::{count_double, count_has_a_double, double_of_count, is_count_double, E, PHI, PI, TAU};
use crate::scripting::Helper;
use vstd::prelude::*;

verus! {

#[verifier::external_type_specification]
#[verifier::external_body]
pub struct ExEngine(rhai::Engine);

#[verifier::external_type_specification]
#[verifier::external_body]
pub struct ExAst(rhai::AST);

#[verifier::external_type_specification]
#[verifier::external_body]
pub struct ExScope<'a>(rhai::Scope<'a>);

/// The message with which an engine of this build, made as `parse` makes
/// it, refuses to compile `source`, or `None` where it compiles.
pub uninterp spec fn parse_failure(source: Seq<char>) -> Option<Seq<char>>;

/// The functions of doubles that this library has registered on an engine,
/// each by the name under which a script calls it and the number of its
/// arguments. The engine tells functions of one name apart by their
/// arguments, so a name may stand here once for each number of them.
pub uninterp spec fn registered(engine: rhai::Engine) -> Map<(Seq<char>, nat), Helper>;

/// The constants that a scope holds, each a name and a double's bit
/// pattern, first pushed first.
pub uninterp spec fn scope_entries(scope: rhai::Scope<'static>) -> Seq<(Seq<char>, u64)>;

/// `Engine::new_raw`, `Package::register_into_engine` and `Engine::compile`
/// of rhai: makes an engine that holds the language's own operators and
/// three of rhai's packages, those of arithmetic, of comparisons and of the
/// mathematical functions, and compiles `source` with it. The outcome is
/// that of `parse_failure`, the message being the error's `to_string`. The
/// engine that comes back has no function registered by this library. It
/// reaches no file, no clock and no thread: the packages that do are left
/// out.
#[verifier::external_body]
fn parse(source: &str) -> (outcome: Result<(rhai::Engine, rhai::AST), String>)
    ensures
        match outcome {
            Ok(parsed) => parse_failure(source@) is None && registered(parsed.0) == Map::<
                (Seq<char>, nat),
                Helper,
            >::empty(),
            Err(message) => parse_failure(source@) == Some(message@),
        },
{
    let mut engine = rhai::Engine::new_raw();
    rhai::packages::Package::register_into_engine(
        &rhai::packages::ArithmeticPackage::new(),
        &mut engine,
    );
    rhai::packages::Package::register_into_engine(&rhai::packages::LogicPackage::new(), &mut engine);
    rhai::packages::Package::register_into_engine(
        &rhai::packages::BasicMathPackage::new(),
        &mut engine,
    );
    match engine.compile(source) {
        Ok(ast) => Ok((engine, ast)),
        Err(error) => Err(error.to_string()),
    }
}

/// `Engine::register_fn` of rhai, for a function without arguments: scripts
/// reach `helper` under `name` with no argument. A function registered
/// before under that name and number of arguments is replaced; any other
/// stays.
#[verifier::external_body]
fn register_nullary(engine: &mut rhai::Engine, name: &str, helper: Helper)
    requires
        helper.arity() == 0,
    ensures
        registered(*final(engine)) == registered(*old(engine)).insert((name@, 0nat), helper),
{
    engine.register_fn(name, move || rhai::FLOAT::from_bits(helper.call0()));
}

/// `Engine::register_fn` of rhai, for a function of two doubles: scripts
/// reach `helper` under `name` with two doubles. A function registered
/// before under that name and number of arguments is replaced; any other
/// stays.
#[verifier::external_body]
fn register_binary(engine: &mut rhai::Engine, name: &str, helper: Helper)
    requires
        helper.arity() == 2,
    ensures
        registered(*final(engine)) == registered(*old(engine)).insert((name@, 2nat), helper),
{
    engine.register_fn(
        name,
        move |a: rhai::FLOAT, b: rhai::FLOAT|
            rhai::FLOAT::from_bits(helper.call2(a.to_bits(), b.to_bits())),
    );
}

/// `Engine::register_fn` of rhai, for a function of three doubles: scripts
/// reach `helper` under `name` with three doubles. A function registered
/// before under that name and number of arguments is replaced; any other
/// stays.
#[verifier::external_body]
fn register_ternary(engine: &mut rhai::Engine, name: &str, helper: Helper)
    requires
        helper.arity() == 3,
    ensures
        registered(*final(engine)) == registered(*old(engine)).insert((name@, 3nat), helper),
{
    engine.register_fn(
        name,
        move |a: rhai::FLOAT, b: rhai::FLOAT, c: rhai::FLOAT|
            rhai::FLOAT::from_bits(helper.call3(a.to_bits(), b.to_bits(), c.to_bits())),
    );
}

/// `Scope::new` of rhai: a scope that holds nothing.
#[verifier::external_body]
fn scope_new() -> (scope: rhai::Scope<'static>)
    ensures
        scope_entries(scope) == Seq::<(Seq<char>, u64)>::empty(),
{
    rhai::Scope::new()
}

/// `Scope::push_constant` of rhai, with a double: adds it under `name`,
/// after what the scope holds.
#[verifier::external_body]
fn scope_push(scope: &mut rhai::Scope<'static>, name: &str, bits: u64)
    ensures
        scope_entries(*final(scope)) == scope_entries(*old(scope)).push((name@, bits)),
{
    scope.push_constant(name, rhai::FLOAT::from_bits(bits));
}

/// `Engine::eval_ast_with_scope` of rhai, asking for a double: the value's
/// bit pattern, or the error's `to_string`. Nothing is claimed of either: a
/// script may draw random numbers.
///
/// Besides the operators and statements of the language, a script reaches
/// the functions of the three packages that `parse` gave the engine,
/// which check their arithmetic and hand an error back where it fails,
/// and the helper functions registered on it. It reaches none that
/// sleeps, reads the clock, prints, or opens a file. A script that loops
/// forever, or that goes on building a longer text, keeps the call from
/// returning.
#[verifier::external_body]
fn run(engine: &rhai::Engine, ast: &rhai::AST, scope: rhai::Scope<'static>) -> (outcome: Result<
    u64,
    String,
>) {
    let mut scope = scope;
    match engine.eval_ast_with_scope::<rhai::FLOAT>(&mut scope, ast) {
        Ok(value) => Ok(value.to_bits()),
        Err(error) => Err(error.to_string()),
    }
}

/// The message shown for a text that does not compile: the engine's, or,
/// should the engine give an empty one, a message that says as much.
pub open spec fn shown_message(message: Seq<char>) -> Seq<char> {
    if message.len() == 0 {
        "the script does not compile"@
    } else {
        message
    }
}

/// A message that is shown is never empty.
pub proof fn shown_message_is_not_empty(message: Seq<char>)
    ensures
        shown_message(message).len() > 0,
{
    reveal_strlit("the script does not compile");
}

/// Why a script did not compile.
#[derive(Debug)]
pub struct CompileError {
    pub message: String,
}

/// Why a script's evaluation failed.
#[derive(Debug)]
pub struct EvalError {
    pub message: String,
}

/// What a script sees of the cell it is evaluated for.
#[derive(Clone, Copy, Debug)]
pub struct Bindings {
    /// Seconds since the script started running, as a double's bit pattern.
    pub t: u64,
    /// The cell's linear index.
    pub i: u32,
    /// The cell's column.
    pub x: u32,
    /// The cell's row.
    pub y: u32,
    /// The current volume, as a double's bit pattern.
    pub v: u64,
    /// The cell's value in the previous frame, as a double's bit pattern.
    pub a: u64,
}

/// What a script sees of `cell` at the time `t`, with the volume at
/// `volume`: the cell's index, column, row and value as they are.
pub open spec fn bindings_of(cell: Cell, volume: u64, t: u64) -> Bindings {
    Bindings { t, i: cell.i, x: cell.x, y: cell.y, v: volume, a: cell.a }
}

/// The constants that a script is evaluated with, in order: the six bindings
/// of the cell, the index, column and row as the doubles with those values,
/// then the four named numbers.
pub open spec fn script_constants(bindings: Bindings) -> Seq<(Seq<char>, u64)> {
    seq![
        ("t"@, bindings.t),
        ("i"@, count_double(bindings.i)),
        ("x"@, count_double(bindings.x)),
        ("y"@, count_double(bindings.y)),
        ("v"@, bindings.v),
        ("a"@, bindings.a),
        ("PI"@, PI),
        ("TAU"@, TAU),
        ("E"@, E),
        ("PHI"@, PHI),
    ]
}

/// `base` with `helper` added under its name and number of arguments.
pub open spec fn with_helper(
    base: Map<(Seq<char>, nat), Helper>,
    helper: Helper,
) -> Map<(Seq<char>, nat), Helper> {
    base.insert((helper.name(), helper.arity()), helper)
}

/// `base` with the five helper functions added.
pub open spec fn with_helpers(base: Map<(Seq<char>, nat), Helper>) -> Map<
    (Seq<char>, nat),
    Helper,
> {
    with_helper(
        with_helper(
            with_helper(with_helper(with_helper(base, Helper::Atan2), Helper::Min), Helper::Max),
            Helper::Clamp,
        ),
        Helper::Rand,
    )
}

/// The functions that a compiled script can call besides the language's
/// own: `atan2`, `min` and `max` of two doubles, `clamp` of three, and
/// `rand` of none.
pub open spec fn script_functions() -> Map<(Seq<char>, nat), Helper> {
    with_helpers(Map::<(Seq<char>, nat), Helper>::empty())
}

/// The scope that a script is evaluated in for one cell.
pub fn cell_scope(bindings: &Bindings) -> (scope: rhai::Scope<'static>)
    ensures
        scope_entries(scope) == script_constants(*bindings),
{
    let mut scope = scope_new();
    scope_push(&mut scope, "t", bindings.t);
    scope_push(&mut scope, "i", double_of_count(bindings.i));
    scope_push(&mut scope, "x", double_of_count(bindings.x));
    scope_push(&mut scope, "y", double_of_count(bindings.y));
    scope_push(&mut scope, "v", bindings.v);
    scope_push(&mut scope, "a", bindings.a);
    scope_push(&mut scope, "PI", PI);
    scope_push(&mut scope, "TAU", TAU);
    scope_push(&mut scope, "E", E);
    scope_push(&mut scope, "PHI", PHI);
    assert(scope_entries(scope) =~= script_constants(*bindings));
    scope
}

/// Makes `helper` callable from the scripts that `engine` runs.
fn register(engine: &mut rhai::Engine, helper: Helper)
    ensures
        registered(*final(engine)) == with_helper(registered(*old(engine)), helper),
{
    let name = helper.script_name();
    match helper {
        Helper::Rand => register_nullary(engine, name, helper),
        Helper::Clamp => register_ternary(engine, name, helper),
        Helper::Atan2 | Helper::Min | Helper::Max => register_binary(engine, name, helper),
    }
}

/// What `evaluate` makes of the engine's answer: the double as it is, or
/// the engine's message as an error.
pub open spec fn evaluation_of(ran: Result<u64, String>) -> Result<u64, EvalError> {
    match ran {
        Ok(value) => Ok(value),
        Err(message) => Err(EvalError { message }),
    }
}

/// What `evaluate` makes of the engine's answer.
pub fn finish_evaluate(ran: Result<u64, String>) -> (outcome: Result<u64, EvalError>)
    ensures
        outcome == evaluation_of(ran),
{
    match ran {
        Ok(value) => Ok(value),
        Err(message) => Err(EvalError { message }),
    }
}

/// A script that compiled, with the engine that runs it.
pub struct CompiledScript {
    engine: rhai::Engine,
    ast: rhai::AST,
}

impl CompiledScript {
    /// The functions that the script can call besides the language's own.
    pub closed spec fn functions(&self) -> Map<(Seq<char>, nat), Helper> {
        registered(self.engine)
    }

    /// What the engine made of the script's text.
    pub closed spec fn tree(&self) -> rhai::AST {
        self.ast
    }

    /// Whether the script was compiled from `source`: the engine, asked to
    /// compile a text that reads `source`, gave what this script holds.
    /// Only a call of the engine makes this hold.
    pub closed spec fn compiled_from(&self, source: Seq<char>) -> bool {
        exists|text: &str, engine: rhai::Engine|
            #![trigger call_ensures(parse, (text,), Ok::<(rhai::Engine, rhai::AST), String>((engine, self.ast)))]
            text@ == source && call_ensures(
                parse,
                (text,),
                Ok::<(rhai::Engine, rhai::AST), String>((engine, self.ast)),
            )
    }

    /// Whether the engine gave `outcome` for `bindings`: it was asked to
    /// evaluate this script in a scope that holds exactly the constants of
    /// `bindings`, and `outcome` is what `evaluation_of` makes of its
    /// answer. Only a call of the engine makes this hold.
    pub closed spec fn gave(&self, bindings: Bindings, outcome: Result<u64, EvalError>) -> bool {
        exists|scope: rhai::Scope<'static>, ran: Result<u64, String>|
            #![trigger call_ensures(run, (&self.engine, &self.ast, scope), ran)]
            scope_entries(scope) == script_constants(bindings) && call_ensures(
                run,
                (&self.engine, &self.ast, scope),
                ran,
            ) && outcome == evaluation_of(ran)
    }

    /// Evaluates the script for one cell: the engine is asked for the
    /// script's value in the scope that `cell_scope` makes of `bindings`,
    /// and its double comes back as it is, its refusal as an error with the
    /// engine's message. Which of the two, and which double, is the
    /// engine's to say.
    pub fn evaluate(&self, bindings: &Bindings) -> (outcome: Result<u64, EvalError>)
        ensures
            self.gave(*bindings, outcome),
    {
        let scope = cell_scope(bindings);
        let ghost handed = scope;
        let ran = run(&self.engine, &self.ast, scope);
        assert(call_ensures(run, (&self.engine, &self.ast, handed), ran));
        finish_evaluate(ran)
    }
}

/// What `compile` makes of the engine's answer: a script that holds what
/// the engine made of the text, its engine with the helper functions
/// added, or an error with the message to show.
pub fn finish_compile(parsed: Result<(rhai::Engine, rhai::AST), String>) -> (outcome: Result<
    CompiledScript,
    CompileError,
>)
    ensures
        match parsed {
            Ok(pair) => {
                &&& outcome matches Ok(script)
                &&& script.tree() == pair.1
                &&& script.functions() == with_helpers(registered(pair.0))
            },
            Err(message) => outcome matches Err(error) && error.message@ == shown_message(
                message@,
            ),
        },
{
    match parsed {
        Ok((mut engine, ast)) => {
            register(&mut engine, Helper::Atan2);
            register(&mut engine, Helper::Min);
            register(&mut engine, Helper::Max);
            register(&mut engine, Helper::Clamp);
            register(&mut engine, Helper::Rand);
            Ok(CompiledScript { engine, ast })
        },
        Err(message) => {
            if message.as_str().unicode_len() == 0 {
                Err(CompileError { message: String::from_str("the script does not compile") })
            } else {
                Err(CompileError { message })
            }
        },
    }
}

/// Compiles `source`. It succeeds exactly where the engine accepts the
/// text; the script is then what the engine made of that text, and can
/// call `atan2`, `min`, `max`, `clamp` and `rand`. Otherwise the error
/// carries the engine's message, and is never empty.
pub fn compile(source: &str) -> (outcome: Result<CompiledScript, CompileError>)
    ensures
        match outcome {
            Ok(script) => {
                &&& parse_failure(source@) is None
                &&& script.compiled_from(source@)
                &&& script.functions() == script_functions()
            },
            Err(error) => {
                &&& parse_failure(source@) matches Some(message)
                &&& error.message@ == shown_message(message)
                &&& error.message@.len() > 0
            },
        },
{
    let parsed = parse(source);
    proof {
        assert(call_ensures(parse, (source,), parsed));
        if parsed is Ok {
            let pair = parsed->Ok_0;
            assert(parsed == Ok::<(rhai::Engine, rhai::AST), String>((pair.0, pair.1)));
        } else {
            shown_message_is_not_empty(parsed->Err_0@);
        }
    }
    finish_compile(parsed)
}

/// The engine accepts the text that a script was compiled from.
pub proof fn compiled_text_is_accepted(script: CompiledScript, source: Seq<char>)
    requires
        script.compiled_from(source),
    ensures
        parse_failure(source) is None,
{
    let (text, engine) = choose|text: &str, engine: rhai::Engine|
        #![trigger call_ensures(parse, (text,), Ok::<(rhai::Engine, rhai::AST), String>((engine, script.ast)))]
        text@ == source && call_ensures(
            parse,
            (text,),
            Ok::<(rhai::Engine, rhai::AST), String>((engine, script.ast)),
        );
}

/// For the cell in column `x` and row `y`, the script's `i` is the double
/// whose value is `y * WIDTH + x`, its `x` and `y` are the doubles whose
/// values are the column and the row, and its `a` is the value that the
/// cell holds. The first cell's `i` is the pattern of 0.0.
pub proof fn bindings_name_the_cell(cells: Seq<u64>, x: int, y: int, volume: u64, t: u64)
    requires
        cells.len() == CELLS,
        0 <= x < WIDTH,
        0 <= y < HEIGHT,
    ensures
        ({
            let bindings = bindings_of(cell_at(cells, x, y), volume, t);
            let constants = script_constants(bindings);
            &&& bindings.i == y * WIDTH + x
            &&& bindings.x == x
            &&& bindings.y == y
            &&& constants[0] == ("t"@, t)
            &&& constants[1].0 == "i"@
            &&& is_count_double(constants[1].1, (y * WIDTH + x) as nat)
            &&& constants[2].0 == "x"@
            &&& is_count_double(constants[2].1, x as nat)
            &&& constants[3].0 == "y"@
            &&& is_count_double(constants[3].1, y as nat)
            &&& constants[4] == ("v"@, volume)
            &&& constants[5] == ("a"@, cells[y * WIDTH + x])
            &&& x == 0 && y == 0 ==> constants[1].1 == 0
        }),
{
    assert(cell_index(x, y) == y * WIDTH + x);
    count_has_a_double((y * WIDTH + x) as u32);
    count_has_a_double(x as u32);
    count_has_a_double(y as u32);
}

} // verus!
