//! The programs of the ESP32-C3.
pub mod program;
pub mod station;
pub mod fetch;
pub mod boot;
pub mod display;
