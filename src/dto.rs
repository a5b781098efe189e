use vstd::prelude::*;

use crate::state::State;

verus! {

/// The outward view of an action.
pub struct ActionDto {
    pub id: u32,
    pub state: State,
    pub repo_url: String,
    pub image: String,
}

/// A request to create an action.
pub struct CreateActionRequest {
    pub image: String,
    pub commands: Vec<String>,
    pub repo_url: String,
    pub action_id: u32,
}

pub struct DeleteActionRequest {
    pub id: u32,
}

pub struct DeleteActionResponse {
    pub id: u32,
}

} // verus!
