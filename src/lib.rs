use vstd::prelude::*;

pub mod claude_manager;
pub mod codex_manager;
pub mod error;
pub mod gemini_manager;
pub mod json;
pub mod laws;
pub mod manager;
pub mod models;
pub mod opencode_manager;
pub mod sync;
pub mod table;
pub mod text;

verus! {

} // verus!
