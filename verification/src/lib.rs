//! Verified core of a UART echo component and its bare-metal host.
//!
//! The echo rules (what a terminal sees for each byte typed), the
//! diagnostic report written when the firmware panics, and the Pulley
//! engine configuration of the host runtime.

pub mod echo;
pub mod engine;
pub mod report;
