//! Access-condition trading over co-signed off-chain state proofs.
//!
//! Two channel peers open an access condition for a DID; co-signed state
//! proofs then move it between the idle and finalized states, swap the
//! owner and grantee, and grant the grantee the right to the DID's data.
pub mod types;

pub mod scale;
pub mod sr25519;
pub mod table;
pub mod did;
pub mod spec;
pub mod module;
pub mod laws;
