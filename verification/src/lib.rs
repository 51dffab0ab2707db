//! Loading of IGVM boot images into SEV-SNP confidential guests.
//!
//! The crate interprets an already decoded directive stream: it keeps the
//! parameter areas, classifies pages, says what to hand to the page-import
//! sink, and drives the isolation handshake that follows. Every effect on the
//! guest or the hypervisor is returned as a value for the caller to perform.

pub mod bytes;
pub mod commit;
pub mod cmdline;
pub mod directive;
pub mod error;
pub mod hostdata;
pub mod interp;
pub mod load;
pub mod memmap;
pub mod page;
pub mod params;
pub mod pipeline;

pub use crate::error::{Error, Failure, Violation};
pub use crate::load::load_igvm;
