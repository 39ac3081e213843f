//! State inference for an auto-splitting run timer that observes a game
//! process from the outside.
//!
//! The library holds the decision logic of the splitter: change-aware
//! watchers over polled values, classification of scene names, the split
//! automaton that turns watched values into timer actions, resolution and
//! caching of runtime type metadata, pointer-path address arithmetic, and
//! byte-signature scanning. All reads of the target process, as well as the
//! timer commands themselves, are performed by the host harness, which feeds
//! plain values into these functions and carries their decisions out.

pub mod automaton;
pub mod resolve;
pub mod scanner;
pub mod scene;
pub mod session;
pub mod watcher;
