//! The scripting engine, as far as this library relies on it.
//!
//! The engine, its compiled scripts and its errors are values of the `rhai`
//! crate. Nothing in this module is proved: each item states what the rest of
//! the library takes for granted about `rhai`.

use rhai::{Engine, OptimizationLevel, ParseError, AST};
use vstd::prelude::*;

verus! {

/// `rhai::Engine`, carried as an opaque value.
#[verifier::external_type_specification]
#[verifier::external_body]
pub struct ExEngine(rhai::Engine);

/// `rhai::AST`, the compiled form of a script, carried as an opaque value.
#[verifier::external_type_specification]
#[verifier::external_body]
pub struct ExAst(rhai::AST);

/// `rhai::ParseError`, carried as an opaque value.
#[verifier::external_type_specification]
#[verifier::external_body]
pub struct ExParseError(rhai::ParseError);

/// How much the engine rewrites a script when it compiles it.
#[derive(Clone, Copy, Debug, PartialEq, Eq, Structural)]
pub enum Optimization {
    /// The script is compiled as it is written.
    Off,
    /// Simple rewriting only; no function is called while compiling.
    Simple,
    /// Full rewriting: calls whose arguments are constants are evaluated
    /// while compiling, as if every function were pure.
    Full,
}

/// `outcome` is what a call of `Engine::compile` on `engine` and `script`
/// returned.
///
/// This relates a call to its outcome and no more: it does not say which
/// texts compile, and it allows two calls on the same engine and text to
/// return different outcomes.
pub uninterp spec fn compile_returns(
    engine: Engine,
    script: Seq<char>,
    outcome: Result<AST, ParseError>,
) -> bool;

/// The optimization level that an engine compiles with: the value that
/// `Engine::optimization_level` reads.
pub uninterp spec fn optimization(engine: Engine) -> Optimization;

/// Calls `Engine::new`, which builds an engine with the standard package.
/// Nothing is claimed about the engine.
#[verifier::external_body]
pub(crate) fn new_engine() -> Engine {
    Engine::new()
}

/// Calls `Engine::set_optimization_level`, which stores the level in the
/// engine. That the engine then reads back `level` is all that is claimed.
#[verifier::external_body]
pub(crate) fn set_optimization(engine: &mut Engine, level: Optimization)
    ensures
        optimization(*final(engine)) == level,
{
    engine.set_optimization_level(
        match level {
            Optimization::Off => OptimizationLevel::None,
            Optimization::Simple => OptimizationLevel::Simple,
            Optimization::Full => OptimizationLevel::Full,
        },
    );
}

/// Calls `Engine::compile` on `script`.
///
/// Whether the script compiles is up to the engine, and so is the script
/// that comes out: at full optimization the engine calls the functions
/// registered with it wherever the script calls them with constant
/// arguments, so the result may depend on what those functions do. The one
/// claim is that what comes back is what this call, on this engine and this
/// text, returned.
#[verifier::external_body]
pub(crate) fn compile(engine: &Engine, script: &str) -> (compiled: Result<AST, ParseError>)
    ensures
        compile_returns(*engine, script@, compiled),
{
    engine.compile(script)
}

} // verus!
