//! The alignment front of a burst-image pipeline: images whose samples live
//! in buffers that a compute backend owns, and the multi-resolution pyramid
//! that block matching searches from coarse to fine.
//!
//! The crate decides what is allocated and which operation runs on which
//! buffer; a [`backend::ImageBackend`] does the work on the samples. Every
//! extent is computed here, in integers, and proved to be what the contracts
//! say.

pub mod backend;
pub mod error;
pub mod image;
pub mod math;
pub mod noise;
