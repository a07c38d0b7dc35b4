//! Engine of a terminal dashboard for local development services.
//!
//! The library owns the data model and the decision logic of the dashboard:
//! the registry of discovered services, the typed events that serialize all
//! state changes, the selection and bookkeeping rules of the control loop,
//! the event transcript a process supervisor emits over a child process's
//! lifetime, and the manifest-parsing rules of service discovery.
//!
//! Everything that must touch the terminal, the file system or the OS
//! process table lives outside the library and communicates with it through
//! plain values.

pub mod app;
pub mod cli;
pub mod config;
pub mod control;
pub mod events;
pub mod models;
pub mod scanner;
pub mod supervisor;
