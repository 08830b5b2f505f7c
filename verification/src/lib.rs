//! The decisions of a voice-assistant backend: who may call it, what the
//! knowledge base answers, how an appointment is confirmed, and what is stored of
//! appointments and calls and given out again.
pub mod auth;
pub mod booking;
pub mod calls;
pub mod clock;
pub mod digits;
pub mod endpoint;
pub mod health;
pub mod json;
pub mod kb;
pub mod record_id;
pub mod rejection;
pub mod settings;
pub mod text;
