//! Command groups of the tool.

pub mod module;
pub mod monitor;
pub mod router;

pub use module::ModuleCommands;
pub use monitor::{ControlMessage, MonitorCommand, MonitorHandle};
pub use router::RouterCommands;
