//! A messaging and calling backend. Its core is the realtime signaling
//! relay: a registry of live connections, keyed by user or by call, through
//! which call signaling and notifications are forwarded between sessions.
//! Around it stand the rules of the request handlers, as functions from what
//! was read to what is answered.

pub mod calls;
pub mod channel;
pub mod common;
pub mod devices;
pub mod frame;
pub mod matches;
pub mod messages;
pub mod onboarding;
pub mod random;
pub mod register;
pub mod registry;
pub mod router;
pub mod store;
pub mod text;
pub mod users;
pub mod webauthn;
pub mod websocket;
