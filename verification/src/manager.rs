use vstd::prelude::*;

use crate::errors::GpmError;

verus! {

/// The per-resource task-dispatch interface: it will queue tasks for a
/// dedicated worker per hardware resource and hand responses back.
///
/// The dispatch layer itself is not yet available, so every operation
/// reports `NotImplemented`; direct calls on the resources remain the way
/// to drive the hardware, and the two styles stay decoupled so both can
/// coexist once dispatch arrives.
pub struct ResourceManager {
    resource_name: String,
}

impl ResourceManager {
    /// Open a dispatcher for the named resource. Always fails with
    /// `NotImplemented`: the dispatch layer is not yet available.
    pub fn new(resource_name: &str) -> (r: Result<ResourceManager, GpmError>)
        ensures
            r == Err::<ResourceManager, GpmError>(GpmError::NotImplemented),
    {
        let _ = resource_name;
        Err(GpmError::NotImplemented)
    }

    /// Queue a task and await its response. Always fails with
    /// `NotImplemented`: the dispatch layer is not yet available.
    pub fn send_task(&self, task_code: &str, task_data: Option<&str>) -> (r: Result<
        String,
        GpmError,
    >)
        ensures
            r == Err::<String, GpmError>(GpmError::NotImplemented),
    {
        let _ = task_code;
        let _ = task_data;
        Err(GpmError::NotImplemented)
    }

    /// Whether the dispatcher is operational. Always fails with
    /// `NotImplemented`: the dispatch layer is not yet available.
    pub fn is_healthy(&self) -> (r: Result<bool, GpmError>)
        ensures
            r == Err::<bool, GpmError>(GpmError::NotImplemented),
    {
        Err(GpmError::NotImplemented)
    }
}

} // verus!

