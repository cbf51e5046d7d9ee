//! Version manager for the release channels of a desktop application: the
//! channel catalog, the persisted manifest of installed versions, and the
//! install / update / remove state machine that drives a channel from one
//! installed version to the next without ever leaving a half-built install.

pub mod channel;
pub mod codec;
pub mod engine;
pub mod error;
pub mod fetch;
pub mod laws;
pub mod manifest;

pub use channel::{describe, parse_channel, str_to_type, Channel, ChannelDescriptor};
pub use engine::{Action, Event, Fault, Operation, Outcome, Phase, Verb};
pub use error::DvmError;
pub use fetch::version_from_locator;
pub use manifest::{show, ChannelStatus, Manifest, Record};
