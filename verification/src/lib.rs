//! A typed remote-procedure-call layer over a bidirectional message channel.
//!
//! Two isolated execution contexts exchange envelopes over a reliable,
//! ordered transport. Each side may expose named services and hold client
//! handles that invoke methods on the other side. The crate verifies the
//! multiplexing core: request/response correlation by call id, tracking of
//! concurrent in-flight calls, dispatch to registered services, and the
//! lifecycle of the endpoint resource. The host-specific channel objects and
//! the actual posting of messages live outside the library; the library is a
//! state machine fed with the events the host delivers.

pub mod builder;
pub mod dispatch;
pub mod endpoint;
pub mod envelope;
pub mod interface;
pub mod registry;
