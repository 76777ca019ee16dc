//! Presents an application-supplied rectangular pixel buffer on a native
//! window surface. The crate holds the platform-neutral core of that job:
//! transcoding the accepted pixel-buffer shapes into the byte layout each
//! backend's presentation call expects, selecting which backend applies to a
//! window's native handles, keeping the double-memory-pool discipline of the
//! shared-memory backend, and deciding, frame by frame, exactly which native
//! actions a present call must perform. The unverifiable native calls
//! themselves (display-server round-trips, image puts, bit-block transfers)
//! are carried out by an embedder that executes the commands this crate
//! computes.

pub mod backend;
pub mod convert;
pub mod error;
pub mod facade;
pub mod pool;

pub use backend::{
    select_backend, BackendKind, DcBackend, HandleProbe, ImageBackend, PresentCommand, ShmBackend,
};
pub use error::CreationError;
pub use facade::{BackendSurface, PresentError, YuxaWindow};
