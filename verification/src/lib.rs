//! A small diagnostic bridge for unrecoverable faults.
//!
//! When the host runtime signals a fault, the text it rendered for the fault is
//! forwarded to one of two sinks: the error log of the embedding host, or the
//! standard error stream of the process. Which of the two is decided when the
//! program is built.
//!
//! This crate holds the decisions of that bridge, each with a proved contract:
//!
//! - [`hook`] says what is handed to which sink for a fault;
//! - [`install_handler`] and [`set_once`] say when the dispatcher has to be
//!   registered as the fault handler of the process: always, or the first time
//!   only and not where it is installed already.
//!
//! Nothing here touches the runtime or a stream. The caller renders the
//! fault, performs the registration and delivers the text.

pub mod dispatch;
pub mod fault;
pub mod install;

pub use dispatch::{hook, Emission, Sink};
pub use fault::FaultInfo;
pub use install::{
    install_handler, set_once, Call, Handler, HookState, InstallModel, Registration,
};
