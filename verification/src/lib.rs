//! The decisions of a small Wi-Fi client that runs on an ESP32-C3 and on a Pico W.
//!
//! Hardware, timers and sockets belong to the boards. This library holds what is
//! decided between two operations of a board, and the texts and numbers that the
//! boards put to use.
pub mod blink;
pub mod decimal;
pub mod endpoint;
pub mod esp32c3;
pub mod phases;
pub mod picow;
pub mod request;
pub mod seed;
pub mod steps;
pub mod text;
