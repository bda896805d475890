pub mod attach;
pub mod config;
pub mod layout;
pub mod paths;
pub mod pipeline;

pub use attach::mount_point;
pub use config::{DmgConfig, DmgContent, DmgWindow, DmgWindowSize, ItemKind};
pub use layout::{layout_entries, LayoutEntry};
pub use paths::file_name;
pub use pipeline::{BuildError, Outcome, Stage};
