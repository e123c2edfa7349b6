pub mod json;
pub mod text;
pub mod dispatch;
pub mod context;
pub mod transcript;
pub mod claims;
pub mod llm;
pub mod agents;
pub mod flow;
pub mod nodes;
pub mod sources;
pub mod cli;
pub mod run;
pub mod laws;
