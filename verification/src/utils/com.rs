use vstd::prelude::*;

verus! {

/// Keeps track of whether this thread's COM library was initialised, so
/// that it is uninitialised when the guard goes away exactly when the
/// initialisation succeeded.
#[non_exhaustive]
pub struct ComInitializer {
    initialized: bool,
}

impl ComInitializer {
    /// Whether the initialisation of the COM library succeeded.
    pub closed spec fn is_initialized(&self) -> bool {
        self.initialized
    }

    /// The guard for an initialisation attempt of the COM library (for the
    /// multithreaded apartment) whose outcome was `succeeded`.
    pub fn new(succeeded: bool) -> (c: ComInitializer)
        ensures
            c.is_initialized() == succeeded,
    {
        ComInitializer { initialized: succeeded }
    }

    /// Whether the COM library must be uninitialised when the guard is
    /// dropped: exactly when its initialisation succeeded.
    pub fn should_uninitialize(&self) -> (r: bool)
        ensures
            r == self.is_initialized(),
    {
        self.initialized
    }
}

} // verus!
