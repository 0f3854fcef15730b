//! A stored photograph of a registered person.

use vstd::prelude::*;

verus! {

/// One photograph: its own id, the person it shows, and the encoded image.
#[derive(Debug, Clone, PartialEq, Eq)]
pub struct Model {
    pub photo_id: u32,
    pub criminal_id: u32,
    pub photo: Vec<u8>,
}

} // verus!
