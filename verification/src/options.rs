//! Options for creating the application.

use vstd::prelude::*;

verus! {

/// Options for the application: its id, the arguments handed to the engine
/// and the size of the background worker pool.
pub struct AppOptions {
    /// The application id.
    pub id: String,
    /// Arguments passed to the app.
    pub args: Vec<String>,
    /// Number of worker threads for async dispatching; `None` leaves the
    /// choice to the engine, and zero disables the pool.
    pub threads: Option<usize>,
}

impl AppOptions {
    /// Creates a new set of options with the specified id.
    pub fn new(id: String) -> (r: AppOptions)
        ensures
            r.id == id,
            r.args@ == Seq::<String>::empty(),
            r.threads is None,
    {
        AppOptions { id, args: Vec::new(), threads: None }
    }

    /// Sets the arguments passed to the app, replacing any previous ones.
    pub fn set_args(&mut self, args: Vec<String>)
        ensures
            final(self).args == args,
            final(self).id == old(self).id,
            final(self).threads == old(self).threads,
    {
        self.args = args;
    }

    /// Sets the number of threads used for async dispatching.
    pub fn set_threads(&mut self, th: usize)
        ensures
            final(self).threads == Some(th),
            final(self).id == old(self).id,
            final(self).args == old(self).args,
    {
        self.threads = Some(th);
    }
}

} // verus!
