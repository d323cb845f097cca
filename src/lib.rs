//! Cloud-container storage support: locating the container, deriving the
//! paths kept inside it, moving a local database out of the synced location,
//! and resetting the local copy.

pub mod text;
pub mod timestamp;
pub mod error;
pub mod paths;
pub mod container;
pub mod sync;
pub mod dbfile;
pub mod migration;
pub mod migration_laws;
pub mod reset;
