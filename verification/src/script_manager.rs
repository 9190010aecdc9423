//! The script registry: compiled scripts, cached per entity and behavior.

use crate::behavior::BehaviorType;
use crate::scripting::{
    compile, compile_returns, new_engine, optimization, set_optimization, Optimization,
};
use rhai::{Engine, ParseError, AST};
use std::collections::HashMap;
use vstd::prelude::*;

verus! {

/// A script was rejected by the engine's compiler.
#[derive(Debug)]
pub struct CompileError {
    /// What the compiler reported.
    pub cause: ParseError,
}

/// Owns the scripting engine and the scripts compiled with it.
///
/// At most one script is cached for each pair of an entity id and a behavior
/// category. Scripts are compiled when they are added and stay for as long as
/// the manager lives.
pub struct ScriptManager {
    engine: Engine,
    asts: HashMap<i32, HashMap<u8, AST>>,
}

/// What caching the outcome of a compilation does.
///
/// A compiled script is put under `(entity_id, behavior_type)`, in place of
/// whatever was cached there, and the call succeeds. A failed compilation
/// leaves the cache as it was, and the call fails with what the compiler
/// reported.
pub open spec fn stored(
    before: Map<(i32, BehaviorType), AST>,
    after: Map<(i32, BehaviorType), AST>,
    entity_id: i32,
    behavior_type: BehaviorType,
    outcome: Result<AST, ParseError>,
    result: Result<(), CompileError>,
) -> bool {
    match outcome {
        Ok(ast) => result is Ok && after == before.insert((entity_id, behavior_type), ast),
        Err(cause) => result == Err::<(), CompileError>(CompileError { cause }) && after
            == before,
    }
}

impl ScriptManager {
    /// The cached scripts, by entity id and behavior category.
    pub closed spec fn scripts(&self) -> Map<(i32, BehaviorType), AST> {
        Map::new(
            |key: (i32, BehaviorType)|
                self.asts@.contains_key(key.0) && self.asts@[key.0]@.contains_key(
                    key.1.spec_code(),
                ),
            |key: (i32, BehaviorType)| self.asts@[key.0]@[key.1.spec_code()],
        )
    }

    /// The engine that the manager owns.
    pub closed spec fn engine(&self) -> Engine {
        self.engine
    }

    /// A manager with no scripts, whose engine optimizes fully.
    pub fn new() -> (manager: Self)
        ensures
            manager.scripts() == Map::<(i32, BehaviorType), AST>::empty(),
            optimization(manager.engine()) == Optimization::Full,
    {
        let mut engine = new_engine();
        set_optimization(&mut engine, Optimization::Full);
        let manager = ScriptManager { engine, asts: HashMap::new() };
        assert(manager.scripts() =~= Map::<(i32, BehaviorType), AST>::empty());
        manager
    }

    /// The engine, to compile or run scripts with.
    pub fn get_engine(&self) -> (engine: &Engine)
        ensures
            *engine == self.engine(),
    {
        &self.engine
    }

    /// The engine, to configure it or to register functions with it. The
    /// cached scripts stay as they are.
    pub fn modify_engine(&mut self) -> (engine: &mut Engine)
        ensures
            *engine == old(self).engine(),
            final(self).engine() == *final(engine),
            final(self).scripts() == old(self).scripts(),
    {
        &mut self.engine
    }

    /// Caches the outcome of a compilation under `(entity_id, behavior_type)`.
    ///
    /// A compiled script replaces whatever was cached for the pair; a failed
    /// compilation is handed back as the error and changes nothing.
    pub fn store_compiled(
        &mut self,
        entity_id: i32,
        behavior_type: BehaviorType,
        compiled: Result<AST, ParseError>,
    ) -> (result: Result<(), CompileError>)
        ensures
            final(self).engine() == old(self).engine(),
            stored(
                old(self).scripts(),
                final(self).scripts(),
                entity_id,
                behavior_type,
                compiled,
                result,
            ),
    {
        match compiled {
            Ok(ast) => {
                let code = behavior_type.code();
                let mut entity = match self.asts.remove(&entity_id) {
                    Some(existing) => existing,
                    None => HashMap::new(),
                };
                entity.insert(code, ast);
                self.asts.insert(entity_id, entity);
                proof {
                    assert forall|other: BehaviorType|
                        other.spec_code() == code implies other == behavior_type by {
                        BehaviorType::code_is_injective(other, behavior_type);
                    }
                    assert(self.scripts() =~= old(self).scripts().insert(
                        (entity_id, behavior_type),
                        ast,
                    ));
                }
                Ok(())
            },
            Err(cause) => Err(CompileError { cause }),
        }
    }

    /// Compiles `script` with the manager's engine and caches the outcome
    /// under `(entity_id, behavior_type)`.
    ///
    /// The script is compiled whole, at once, by one call of the manager's own
    /// engine on `script`. Where the engine rejects it, the engine's error
    /// comes back and the cache is as it was; otherwise the script that the
    /// engine returned replaces whatever was cached for the pair. No other
    /// pair is touched either way. Which of the two happens is the engine's
    /// decision.
    pub fn add_script(&mut self, entity_id: i32, behavior_type: BehaviorType, script: &str) -> (result:
        Result<(), CompileError>)
        ensures
            final(self).engine() == old(self).engine(),
            exists|outcome: Result<AST, ParseError>|
                #[trigger] compile_returns(old(self).engine(), script@, outcome) && stored(
                    old(self).scripts(),
                    final(self).scripts(),
                    entity_id,
                    behavior_type,
                    outcome,
                    result,
                ),
    {
        let compiled = compile(&self.engine, script);
        let ghost outcome = compiled;
        let result = self.store_compiled(entity_id, behavior_type, compiled);
        assert(compile_returns(old(self).engine(), script@, outcome) && stored(
            old(self).scripts(),
            self.scripts(),
            entity_id,
            behavior_type,
            outcome,
            result,
        ));
        result
    }

    /// The script cached for `(entity_id, behavior_type)`, or `None` where
    /// none was ever added for exactly that pair.
    pub fn get_script(&self, entity_id: i32, behavior_type: BehaviorType) -> (found: Option<&AST>)
        ensures
            match found {
                Some(ast) => self.scripts().get((entity_id, behavior_type)) == Some(*ast),
                None => self.scripts().get((entity_id, behavior_type)) is None,
            },
    {
        let code = behavior_type.code();
        match self.asts.get(&entity_id) {
            Some(entity) => entity.get(&code),
            None => None,
        }
    }
}

} // verus!
