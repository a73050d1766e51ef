//! File-drop routing and diagnostics-panel logic for an editor built on an
//! entity-component-system game engine.
//!
//! The engine-facing glue (reading events and resources, spawning entities,
//! drawing widgets) lives outside this library; here are the decisions it makes.

pub mod diagnostics;
pub mod drop;
pub mod extension;

pub use diagnostics::{DiagnosticEntry, DiagnosticsWindow, Panel, Row};
pub use drop::{DropEvent, DropOutcome, Spawn, handle_drops};
pub use extension::{AssetKind, extension_of, route_extension, route_path};
