//! A Slack real-time messaging client: decoding of the events that Slack
//! pushes over the websocket, and the decisions that drive a client session.

pub mod api_types;
pub mod client;
pub mod decode;
pub mod decode_laws;
pub mod events;
pub mod fields;
pub mod timestamps;
