//! A safety layer for a native, handle-based publish/subscribe messaging
//! client: it turns opaque, manually managed resource handles and C-style
//! integer return codes into typed, ownership-tracked values with a
//! deterministic lifecycle and structured errors.
//!
//! The native transport itself is an external collaborator: every call into
//! it returns an integer status code, and every decision this layer makes —
//! which call to issue next, which error to report, whether a handle must be
//! freed — is made here, over plain values, where it can be verified.

pub mod message;
pub mod session;
pub mod status;
pub mod text;

pub use message::destination::DestinationType;
pub use message::destination::MessageDestination;
pub use message::inbound::InboundMessage;
pub use message::outbound::OutboundMessage;
pub use message::outbound::OutboundMessageBuilder;
pub use message::ClassOfService;
pub use message::DeliveryMode;
pub use message::Message;
pub use status::SolClientReturnCode;
