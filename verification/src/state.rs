//! What every handler is handed: the store.

use crate::store::Store;
use crate::tables::Tables;
use vstd::prelude::*;

verus! {

/// The state of the service.
pub struct AppState {
    pub db: Store,
}

impl AppState {
    /// The integrity rules hold of the store's content.
    pub open spec fn wf(&self) -> bool {
        self.db.wf()
    }

    /// A service with an empty store.
    pub fn new() -> (state: AppState)
        ensures
            state.wf(),
            state.db@ == Tables::empty(),
    {
        AppState { db: Store::new() }
    }
}

} // verus!
