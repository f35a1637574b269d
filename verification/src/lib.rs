//! Inventory boundary facade: marshals 64-bit identifiers, inventory
//! records, and a closed native error set across a host boundary whose
//! numeric type cannot safely carry every 64-bit integer.
//!
//! The native inventory subsystem itself (an already-authenticated,
//! process-wide client) is an injected collaborator: every operation here
//! is a pure function from the values handed to that collaborator, or
//! received back from it, to the values the host-facing caller sees.

pub mod codec;
pub mod errors;
pub mod inventory;
pub mod purchase;
