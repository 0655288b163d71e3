pub mod channel;
pub mod dto;
pub mod error;
pub mod order;
pub mod product;
pub mod user;

use vstd::prelude::*;

verus! {

/// A stored upload: its identifier, where its bytes were written, and when.
pub struct Images {
    pub sid: String,
    pub path: String,
    pub created_at: String,
}

} // verus!
