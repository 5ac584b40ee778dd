//! The plainest answers.
use vstd::prelude::*;

verus! {

#[derive(Debug)]
pub struct SuccessResponse {
    pub success: bool,
}

#[derive(Debug)]
pub struct UpdatedResponse {
    pub success: bool,
    pub updated: usize,
}

pub fn success() -> (r: SuccessResponse)
    ensures
        r.success,
{
    SuccessResponse { success: true }
}

pub fn updated(count: usize) -> (r: UpdatedResponse)
    ensures
        r.success,
        r.updated == count,
{
    UpdatedResponse { success: true, updated: count }
}

}
