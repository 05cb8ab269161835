//! Settings for printing a page to a PDF file.

use vstd::prelude::*;

verus! {

/// PDF output layout.
#[derive(Debug, Clone, Copy, PartialEq, Eq, Structural)]
pub enum Layout {
    Portrait,
    Landscape,
}

/// Settings for PDF printing.  The model's fresh settings print in portrait
/// orientation with no output file chosen.
pub struct PrintSettings {
    /// The output file, once chosen.
    pub file: Option<String>,
    /// The page orientation.
    pub orientation: Layout,
}

impl PrintSettings {
    /// Creates a new set of print settings.
    pub fn new() -> (r: PrintSettings)
        ensures
            r.file is None,
            r.orientation == Layout::Portrait,
    {
        PrintSettings { file: None, orientation: Layout::Portrait }
    }

    /// Sets the output file, replacing any previous choice.
    pub fn set_file(&mut self, file: String)
        ensures
            final(self).file == Some(file),
            final(self).orientation == old(self).orientation,
    {
        self.file = Some(file);
    }

    /// Sets the output orientation.
    pub fn set_orientation(&mut self, orientation: Layout)
        ensures
            final(self).orientation == orientation,
            final(self).file == old(self).file,
    {
        self.orientation = orientation;
    }
}

} // verus!
