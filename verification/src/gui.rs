//! The state and rules behind the launcher's interface: filters, sorting,
//! tabs, recent files and the installation steps of a package.
pub mod controls;
pub mod extra;
pub mod install;
pub mod message;
pub mod filters;
pub mod package;

pub mod sort_by;
pub mod style;
pub mod tabs;
