//! Schema and rendering core of a text-adventure client.
//!
//! The client sends a line of player text to a narration service and gets
//! back a batch of event envelopes, which it shows on a terminal. This
//! library holds what is decided along the way:
//!
//! - [`vocabulary`]: the closed set of command categories and their tokens;
//! - [`json`]: structured values, as `serde_json` decodes them;
//! - [`arguments`]: the arguments of a command, a mapping kept as a list;
//! - [`envelope`] and [`batch`]: the event envelope, and how one record and a
//!   whole list of records are read under a schema version;
//! - [`render`]: the two render policies, from envelopes to styled lines;
//! - [`terminal`]: the colours of the styles;
//! - [`turn`]: what to do with a line of player text and with a reply;
//! - [`schema`] and [`error`]: the schema versions and what can go wrong.
//!
//! Reading, sending and writing are left to the caller.

pub mod arguments;
pub mod batch;
pub mod envelope;
pub mod error;
pub mod json;
pub mod render;
pub mod schema;
pub mod terminal;
pub mod text;
pub mod turn;
pub mod vocabulary;

pub use batch::decode_batch;
pub use envelope::GameEventDTO;
pub use error::{EnvelopeField, SchemaError, TransportError, TurnError};
pub use json::JsonValue;
pub use render::{render, render_batch, Style, StyledLine};
pub use schema::{RenderPolicy, SchemaVersion};
pub use terminal::{colored_line, colored_lines};
pub use turn::{
    classify_command, handle_api_response, is_success, next_action, render_document, LoopState,
    TurnAction,
};
pub use vocabulary::CommandType;
