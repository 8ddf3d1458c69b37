//! Trusted broker core between client applications and isolated key-management
//! engines ("secure processors").
//!
//! The library owns the decision logic of the key-blob lifecycle: engine
//! discovery and version normalisation per security tier, transparent key-blob
//! upgrade across engine firmware versions, admission of cryptographic
//! operations under a bounded pool with eviction, and the caller-facing
//! create / import / use / delete entry points.  Everything that talks to the
//! world outside the process (the hardware engines, the persistent metadata
//! store, the policy engine) is modelled as events handed to these functions;
//! the functions themselves are verified.

pub mod admission;
pub mod crypto;
pub mod device;
pub mod lifecycle;
pub mod raw_device;
pub mod selinux;
pub mod store;
pub mod super_key;
pub mod types;
pub mod upgrade;
