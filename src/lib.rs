//! A relay that turns small JSON datagrams into desktop notifications.
//!
//! The library holds the request pipeline: decoding a payload into a
//! [`NotificationRequest`], building the notification that shows it, and
//! deciding what a user's action on that notification leads to.
pub mod builder;
pub mod dispatch;
pub mod laws;
pub mod relay;
pub mod request;

pub use builder::{build_descriptor, build_notification, to_notification, ActionEntry, Descriptor};
pub use dispatch::{on_action, on_some, ActionEffect};
pub use relay::parse_notification;
pub use request::{
    decode_payload, decode_text, request_from_members, DecodeError, Field, JsonMember,
    NotificationRequest,
};
