pub mod config;
pub mod fat;
pub mod newc;
pub mod partition;
pub mod rootfs;
pub mod steps;

use vstd::prelude::*;

verus! {

/// Why a build step failed.
///
/// `Encoding` reports an entry whose name or payload does not fit the
/// archive header fields; `NameCollision` a path the FAT volume refuses;
/// `Capacity` a partition too small for its content; `Io` any other
/// failure of the underlying storage.
#[derive(Clone, Copy, Debug, PartialEq, Eq, Structural)]
pub enum BuildError {
    Encoding,
    NameCollision,
    Capacity,
    Io,
}

} // verus!
