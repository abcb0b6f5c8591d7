//! A break-reminder desktop shell: the decisions behind its commands, its tray
//! menu and its window lifecycle, with a model of the windows they act on.
pub mod greeting;
pub mod launch;
pub mod desktop;
pub mod plan;
pub mod commands;
pub mod tray;
pub mod lifecycle;
pub mod runner;
pub mod laws;
