//! The webhook request wrapper.

use vstd::prelude::*;
use crate::models::events::Event;

verus! {

/// The base request from a Sellix webhook: the event it announces and the
/// payload that goes with it.
#[derive(Debug)]
pub struct RawWebsocketRequest<T> {
    pub event: Event,
    pub data: T,
}

} // verus!
