//! Collections of Unix services that can interact with each other and start each other on demand.
//!
//! A service is a process that listens on a Unix socket at a well-known name in a *base context
//! directory*. [`ServiceExt`] connects to services and starts them where they are not running,
//! [`ServerExt`] runs their servers, and [`ServiceBundle`] holds what a collection of them has in
//! common.
//!
//! The library makes the decisions and leaves the input and output to a driver, in whichever
//! runtime that works: each operation is a machine that asks for one action at a time and goes on
//! with its answer. [`connect_laws`], [`connect_order`] and [`serve_laws`] state what holds of
//! every run of them, and [`protocol`] what holds between them. Paths and command lines are byte
//! strings, as they are on Unix.
pub mod attempt;
pub mod bundle;
pub mod check;
pub mod cleanable_path;
pub mod cleanup;
pub mod command;
pub mod connect;
pub mod connect_laws;
pub mod connect_order;
pub mod create;
pub mod error;
pub mod liveness;
pub mod notify;
pub mod path;
pub mod picked;
pub mod protocol;
pub mod serve;
pub mod serve_laws;
pub mod server;
pub mod service;
pub mod socket_shims;
pub mod sockpath;
pub mod timefut;
pub mod timeout;

pub use bundle::{BundleContext, ServiceBundle};
pub use cleanable_path::CleanablePathBuf;
pub use command::{DeclaredCommand, EnvChange, ServiceCommand};
pub use error::ServiceError;
pub use server::{Server, ServerExt};
pub use service::{DeclaredService, ReifiedService, Service, ServiceExt};
pub use socket_shims::UnixSocketInterface;
pub use timeout::LivenessTimeout;
