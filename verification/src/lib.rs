//! Verified core of the oscillography transfer system: the substation
//! agent's queue, retry, retention and inbox-debounce rules, the receiving
//! server's upload checks, and the PKI server's renewal rules.

pub mod clock;
pub mod text;
pub mod digest;
pub mod paths;
pub mod substation;
pub mod ids;
pub mod certs;
pub mod issuance;
pub mod readback;
pub mod pki;
pub mod ons;
