//! Core of an interactive console for a task-script system.
//!
//! A submitted script is parsed (by the external task engine's parser) into
//! an ordered chain of units; the chain is driven one unit per step by the
//! host loop, which executes each unit through the external execution
//! context and reports the outcome back.  The driver tracks progress,
//! records every submitted script in a history log, mirrors everything it
//! reports into an append-only transcript, and keeps a rebuilt snapshot of
//! the engine's network for display.

pub mod attrs;
pub mod editor;
pub mod engine;
pub mod help;
pub mod highlight;
pub mod laws;
pub mod network;
pub mod pane;
pub mod terminal;
pub mod text;
