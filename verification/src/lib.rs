//! A local-network file-ingest service: collision-safe file naming, a
//! destination directory that can change at run time, the upload session
//! that turns a multipart body into files and progress events, and the
//! event stream that observers listen to.

use vstd::prelude::*;

pub mod broadcast;
pub mod decimal;
pub mod events;
pub mod ingest;
pub mod naming;
pub mod registry;
pub mod routes;
pub mod trace;

verus! {

/// Port number the HTTP server listens on.
pub const PORT: u16 = 8080;

/// Largest number of bytes a single uploaded file may hold (4 GiB).
pub const MAX_UPLOAD_SIZE: u64 = 4294967296;

/// Returns the port the server listens on.
pub fn port() -> (p: u16)
    ensures
        p == PORT,
        p == 8080,
{
    PORT
}

} // verus!
