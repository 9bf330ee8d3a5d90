//! Resolution of desktop-entry `Exec` templates into launch plans.

pub mod entry;
pub mod error;
pub mod exec;
pub mod gpu;
pub mod launch;
pub mod laws;
pub mod terminal;

pub use entry::DesktopEntry;
pub use error::ExecError;
