//! Addressing and envelope types for request/response communication between
//! client sessions and a backend.
//!
//! [`Target`] names who sent or receives a message, [`Targets`] the set of
//! recipients of a broadcast, and [`Req`], [`Res`] and [`Error`] bind a payload
//! to that addressing and to a correlation id.
//! [`wire_obj`] splits a tagged union of payloads into one record per variant.

pub mod error;
pub use error::{Error, NetworkError, SessionError};

pub mod events;
pub use events::{
    Authenticated, Connected, Disconnected, FirstConnected, Unauthenticated, Undetermined,
};

pub mod ids;

pub mod req;
pub use req::Req;

pub mod res;
pub use res::{Res, TimestampedEvent};

pub mod target;
pub use target::{
    AuthTarget, BotId, CorrelationId, SessionId, Target, Targets, TargetsView, UserId, UserPool,
    ANON_USER_ID, SYSTEM_USER_ID,
};

pub mod wire_obj;
pub use wire_obj::{
    derive_wire_obj, wire_obj_source, Body, FieldDef, Fields, StructDef, TypeDef, VariantDef,
    WireObjError,
};
