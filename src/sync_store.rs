//! The synchronized DA height that the node checkpoints.
//!
//! `DaDB` holds the value; writing it to disk is left to the caller, which
//! persists the height after each successful change.
use vstd::prelude::*;

verus! {

/// Why a write to the synced height was refused.
#[derive(Clone, Copy, Debug, PartialEq, Eq, Structural)]
pub enum SyncStoreError {
    /// No height has been stored yet.
    Uninitialized,
    /// The new height does not exceed the stored one.
    NotAdvancing { stored: u64, requested: u64 },
}

/// The height after initializing `stored` with `height`: the stored value,
/// if there is one, else `height`.
pub open spec fn initialized(stored: Option<u64>, height: u64) -> Option<u64> {
    match stored {
        Some(h) => Some(h),
        None => Some(height),
    }
}

/// The last DA height that the node has fully processed.
#[derive(Clone, Copy, Debug, PartialEq, Eq, Structural)]
pub struct DaDB {
    synced_height: Option<u64>,
}

impl View for DaDB {
    type V = Option<u64>;

    closed spec fn view(&self) -> Option<u64> {
        self.synced_height
    }
}

impl DaDB {
    /// A store that holds no height yet.
    pub fn new() -> (r: DaDB)
        ensures
            r@ == None::<u64>,
    {
        DaDB { synced_height: None }
    }

    /// A store that resumes from a height read back from disk.
    pub fn from_stored(stored: Option<u64>) -> (r: DaDB)
        ensures
            r@ == stored,
    {
        DaDB { synced_height: stored }
    }

    /// Sets the starting height, unless a height is stored already.
    pub fn initialize_synced_height(&mut self, height: u64)
        ensures
            final(self)@ == initialized(old(self)@, height),
    {
        if self.synced_height.is_none() {
            self.synced_height = Some(height);
        }
    }

    /// The stored height, if any.
    pub fn get_synced_height(&self) -> (r: Option<u64>)
        ensures
            r == self@,
    {
        self.synced_height
    }

    /// Advances the stored height to `height`, which must exceed it.
    pub fn set_synced_height(&mut self, height: u64) -> (r: Result<(), SyncStoreError>)
        ensures
            match old(self)@ {
                None => r == Err::<(), SyncStoreError>(SyncStoreError::Uninitialized)
                    && final(self)@ == old(self)@,
                Some(h) => if h < height {
                    r is Ok && final(self)@ == Some(height)
                } else {
                    r == Err::<(), SyncStoreError>(
                        SyncStoreError::NotAdvancing { stored: h, requested: height },
                    ) && final(self)@ == old(self)@
                },
            },
    {
        match self.synced_height {
            None => Err(SyncStoreError::Uninitialized),
            Some(h) => {
                if h < height {
                    self.synced_height = Some(height);
                    Ok(())
                } else {
                    Err(SyncStoreError::NotAdvancing { stored: h, requested: height })
                }
            },
        }
    }
}

/// Initializing twice leaves the height of the first initialization: the
/// second call changes nothing.
pub proof fn lemma_initialize_twice_keeps_first(stored: Option<u64>, first: u64, second: u64)
    ensures
        initialized(initialized(stored, first), second) == initialized(stored, first),
        stored is None ==> initialized(initialized(stored, first), second) == Some(first),
{
}

} // verus!
