//! The events that a real-time multiplayer game server and its clients
//! exchange.
//!
//! The vocabulary is a closed union, `ServerEvent`, of eighteen kinds of
//! event. Each event travels as a structured document: an object that names
//! the kind under the key `type` and, for every kind but one, holds a payload
//! under the key `payload`. The crate defines the events and their payloads
//! (`event`, `payload`), the names that stand on the wire (`schema`), the
//! documents themselves (`document`, `number`), what an event carries without
//! looking into it (`types`), and the batch of commands that a player sends
//! (`ActionType`).
//!
//! Writing and reading are functions between events and documents, with
//! contracts over a mathematical model of both, and `laws` proves what holds
//! of the two together. The text of a document is left to `serde_json`
//! (`json_value`, `json_text`).

pub mod document;
pub mod error;
pub mod event;
pub mod json_text;
pub mod json_value;
pub mod laws;
pub mod number;
pub mod payload;
pub mod schema;
pub mod text;
pub mod types;

pub use crate::document::{Document, Json, Member};
pub use crate::error::{DecodeError, SchemaMismatch};
pub use crate::event::{ErrorType, ServerEvent};
pub use crate::number::Number;
pub use crate::payload::{
    ActionType, EndType, PlayerActionType, PlayerDamageReceivedType, PlayerDataType,
    PlayerInfoType, RequestMoveType, RoomDataType, RoundStartType, SessionIdType,
};
pub use crate::schema::{EventKind, Field};
pub use crate::types::{
    Command, GameEvent, GameState, PlayerData, PlayerInfo, RoomData, SessionId,
};
pub use crate::json_text::{decode_text, encode_text};
