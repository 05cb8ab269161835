//! Options for picking files or folders with the system dialog.

use vstd::prelude::*;

verus! {

/// Options for picking files or folders.
pub struct PickerOptions {
    /// The path the picker shows first, once set.
    pub initial: Option<String>,
    /// The file filters, in the order they were added.
    pub filters: Vec<String>,
}

impl PickerOptions {
    /// Creates picker options with default settings: no initial path and no
    /// filters.
    pub fn new() -> (r: PickerOptions)
        ensures
            r.initial is None,
            r.filters@ == Seq::<String>::empty(),
    {
        PickerOptions { initial: None, filters: Vec::new() }
    }

    /// Sets the initial path displayed in the picker, replacing any previous
    /// one.
    pub fn set_initial(&mut self, path: String)
        ensures
            final(self).initial == Some(path),
            final(self).filters == old(self).filters,
    {
        self.initial = Some(path);
    }

    /// Adds a filter to the picker.
    pub fn add_filter(&mut self, filter: String)
        ensures
            final(self).filters@ == old(self).filters@.push(filter),
            final(self).initial == old(self).initial,
    {
        self.filters.push(filter);
    }
}

impl Default for PickerOptions {
    /// The default options: the same as `new`.
    fn default() -> (r: PickerOptions)
        ensures
            r.initial is None,
            r.filters@ == Seq::<String>::empty(),
    {
        PickerOptions::new()
    }
}

} // verus!
