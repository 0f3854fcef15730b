//! Records as the store hands them out, held as plain values.

pub mod criminal;
pub mod criminal_photo;
