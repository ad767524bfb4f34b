//! The PKI server: validation of a station's current certificate, signing of
//! its renewal request, and the renewal endpoint's decisions.
pub mod ca;
pub mod audit;
pub mod config;
pub mod api;
pub mod init;
