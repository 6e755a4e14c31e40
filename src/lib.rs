//! Workspace and project launcher core: the workspace registry, user
//! settings, launch planning and the table of running processes.

pub mod text;
pub mod error;
pub mod models;
pub mod id_map;
pub mod ids;
pub mod clock;
pub mod config;
pub mod project;
pub mod launch;
pub mod state;
