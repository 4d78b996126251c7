//! A runtime bridge that lets many concurrent callers drive one single-threaded
//! script-execution environment: a FIFO job queue that serializes all access to
//! the environment, a host-object proxy bridge with typed method dispatch and
//! vetoable event dispatch, a module-loading security policy, and the startup
//! state machine that sequences configuration, proxy installation and entry
//! module loading before any request is served.

pub mod values;
pub mod errors;
pub mod resolver;
pub mod proxy;
pub mod queue;
pub mod bridge;
