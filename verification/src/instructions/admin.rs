//! The protocol's admin.

use vstd::prelude::*;

use crate::errors::Error;
use crate::state::{Address, ProtocolStore, StoreView};

verus! {

/// Sets the admin of a store that has none yet.
pub fn initialize(store: &mut ProtocolStore, admin: &Address) -> (r: Result<(), Error>)
    requires
        old(store).wf(),
    ensures
        final(store).wf(),
        r is Err <==> old(store)@.admin is Some,
        r is Err ==> r == Err::<(), Error>(Error::AlreadyInitialized) && final(store)@ == old(store)@,
        r is Ok ==> final(store)@ == (StoreView { admin: Some(admin@), ..old(store)@ }),
{
    if store.admin().is_some() {
        return Err(Error::AlreadyInitialized);
    }
    store.set_admin(admin.copied());
    Ok(())
}

} // verus!
