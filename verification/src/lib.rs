//! Provisioning for a local virtual network link and a link-layer raw socket.
//!
//! Two small units: a link provisioner that decides success or failure of an
//! invocation of the external network-configuration tool, and a raw socket
//! handle that owns a non-negative descriptor obtained from the operating
//! system. Spawning the tool and issuing the socket syscall are left to the
//! embedding program; the decisions taken on their results live here.

pub mod error;
pub mod setup;
pub mod socket;
