//! What can be asked of an instance without changing it.

use crate::error::{StdError, StdErrorView};
use crate::msg::ValueResp;
use crate::state::{Store, StoreView};
use vstd::prelude::*;

verus! {

/// The counter that [`value`] reports, or why the state cannot be read.
pub open spec fn value_of(store: StoreView) -> Result<nat, StdErrorView> {
    match store.load_state() {
        Ok(state) => Ok(state.counter),
        Err(e) => Err(e),
    }
}

/// Reports the counter as it is stored.
pub fn value(store: &Store) -> (r: Result<ValueResp, StdError>)
    ensures
        match r {
            Ok(resp) => value_of(store@) == Ok::<nat, StdErrorView>(resp.value as nat),
            Err(e) => value_of(store@) == Err::<nat, StdErrorView>(e@),
        },
{
    match store.load_state() {
        Ok(state) => Ok(ValueResp { value: state.counter }),
        Err(e) => Err(e),
    }
}

} // verus!
