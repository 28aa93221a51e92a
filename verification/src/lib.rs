//! The verified core of a terminal WebSocket client: a multi-line text input,
//! the key bindings that drive it, and the state of the application around it.

pub mod app;
pub mod columns;
pub mod connection;
pub mod decimal;
pub mod keys;
pub mod message;
pub mod text_area;
pub mod text_state;
pub mod ui;
pub mod utf8;
