//! The programs of the Pico W.
pub mod boot;
pub mod fetch;
pub mod flash;
pub mod program;
