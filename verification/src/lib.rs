//! A registry of behavior scripts for the entities of a game world, and the
//! bridge through which those scripts read the world's components.

pub mod behavior;
pub mod components;
pub mod laws;
pub mod marshal;
pub mod script_manager;
pub mod scripting;
pub mod text;
pub mod world;

pub use behavior::BehaviorType;
pub use components::Health;
pub use script_manager::{CompileError, ScriptManager};
pub use scripting::Optimization;
pub use world::{get_characters, get_health};
