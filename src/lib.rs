//! Declarative management of Arch Linux packages: the decisions behind
//! reconciling a desired package list with the installed system, the
//! documents that hold that list, and the retrying runner of the external
//! commands that carry the decisions out.

pub mod text;
pub mod classify;
pub mod runner;
pub mod packages;
pub mod reconcile;
pub mod config;
pub mod documents;
pub mod commands;
pub mod bootstrap;
