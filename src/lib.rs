//! A project-local tool manager: turns a declarative project manifest into a
//! lock with resolved image digests, reconciles the installed state with it,
//! and assembles the container-launch argument vector of each declared tool.

pub mod text;
pub mod primitives;
pub mod error;
pub mod config;
pub mod merge;
pub mod volumes;
pub mod runconfig;
pub mod inspect;
pub mod lock;
pub mod reconcile;
pub mod directories;
pub mod invocation;
pub mod integration;
pub mod session;
pub mod passwd;
pub mod workspace;
pub mod runtime_args;
