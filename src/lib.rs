//! Keeps a DNS AAAA record in step with the IPv6 address of a local interface.
//!
//! The library decides; the caller acts. [`address`] picks the address to
//! publish from the interfaces the system reports, [`dns`] builds the request
//! that publishes it, and [`reconcile`] is the polling cycle as a state machine
//! whose actions the caller performs and whose events the caller reports back.
pub mod address;
pub mod dns;
pub mod reconcile;
