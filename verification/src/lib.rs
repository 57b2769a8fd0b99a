//! Vertices of the Highway protocol's directed acyclic graph.
//!
//! Validators exchange signed units, evidence of faults, batches of
//! endorsements and pings.  This crate defines those vertices, the
//! canonical bytes a unit is hashed over, the identifier by which a vertex is
//! requested from peers, and the checks that need nothing but the vertex and
//! the validator table.  Beside them stands the choice of entry point of the
//! contract through which a validator bonds its stake.  Every function is
//! verified against its contract.

pub mod context;
pub mod encoding;
pub mod encoding_laws;
pub mod endorsements;
pub mod laws;
pub mod mint_bonding;
pub mod order;
pub mod panorama;
pub mod ping;
pub mod timestamp;
pub mod validators;
pub mod vertex;
pub mod wire_unit;
