//! Verified core of a local print service.
//!
//! A job names a printer and carries a document as raw PDF bytes (base64),
//! an inline HTML fragment, or a URL. The library holds the logic with real
//! failure modes: format handling and rendering plans, temporary-artifact
//! naming and its cleanup discipline, classification of the OS print
//! command's outcome, the per-job pipeline state machine, and the service
//! lifecycle controller. The surroundings (HTTP wiring, the rendering
//! engine, the filesystem and the print command itself) act only through
//! the actions the pipeline emits and the events they report back.

pub mod artifact;
pub mod directory;
pub mod dispatch;
pub mod lifecycle;
pub mod pipeline;
pub mod render;
