//! The out-parameter helpers under their own name.
pub use crate::borrowed_refs::{from_ptr, COut};
