//! A Blender launcher's core: the package model, release lists, filters,
//! settings logic and the installation state machine, with their contracts.
pub mod package;
pub mod text;
pub mod version;
pub mod sorting;
pub mod releases;
pub mod gui;
pub mod settings;
pub mod helpers;
pub mod paths;
pub mod dates;
pub mod self_updater;
pub mod laws;
pub mod release_laws;
pub mod launch;
