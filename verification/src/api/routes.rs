//! Request bodies of the API that carry no coordinates.
use vstd::prelude::*;

use crate::models::AmrState;

verus! {

/// Body of `POST /api/amr/{id}/state`.
#[derive(Debug, Clone)]
pub struct UpdateStateRequest {
    pub state: AmrState,
}

} // verus!
