//! Interactive session engine for a terminal checklist runner.
//!
//! The library holds the verified core of the application: the selection and
//! navigation state machine over a tree-shaped test list, the mode-priority
//! input router, the screen model of the embedded terminal, and the document
//! types for test definitions and recorded results.

pub mod checklist;
pub mod checklist_map;
pub mod clock;
pub mod definition;
pub mod effect;
pub mod error;
pub mod idset;
pub mod navigation;
pub mod queries;
pub mod results;
pub mod router;
pub mod rows;
pub mod schema;
pub mod state;
pub mod strings;
pub mod term;
pub mod transforms;
