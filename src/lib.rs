//! A chat client core: the packet protocol spoken over a WebSocket
//! connection, and the session state machine that reacts to user and
//! transport events.

pub mod packets;
pub mod session;

pub use packets::{to_json, from_json, PacketType, DecodeError};
pub use session::{Effect, Event, Screen, Session, Step, TransportStatus, event_for_status};
