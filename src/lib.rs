use vstd::prelude::*;

pub mod entry;
pub mod ordering;
pub mod codec;
pub mod reconcile;
pub mod store;
pub mod laws;
pub mod settings;
pub mod sound;
pub mod config_sync;

verus! {

/// Largest number of entries a history keeps.
pub const MAX_HISTORY_ENTRIES: usize = 500;

} // verus!
