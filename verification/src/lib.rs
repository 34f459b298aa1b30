//! Decision logic of an arena in which two language-model players compete in
//! games invented by a third model acting as game master.

pub mod text;
pub mod json;
pub mod config;
pub mod llm;
pub mod game;
pub mod prompts;
pub mod engine;
pub mod population;
pub mod store;
pub mod arena;
