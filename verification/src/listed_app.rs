//! An entry of the application chooser.

use vstd::prelude::*;

verus! {

/// The application index that stands for "All applications".
pub const ALL_APPLICATIONS: u32 = 4_294_967_295;

/// An audio-playing application offered for capture.
pub struct ListedApp {
    /// Name shown in the chooser.
    pub display_name: String,
    /// The application's stream index, or `ALL_APPLICATIONS`.
    pub app_index: u32,
}

impl ListedApp {
    /// A new entry.
    pub fn new(display_name: String, app_index: u32) -> (r: ListedApp)
        ensures
            r.display_name == display_name,
            r.app_index == app_index,
    {
        ListedApp { display_name, app_index }
    }

    /// The name shown in the chooser.
    pub fn display_name(&self) -> (r: String)
        ensures
            r == self.display_name,
    {
        self.display_name.clone()
    }

    /// The stream index.
    pub fn app_index(&self) -> (r: u32)
        ensures
            r == self.app_index,
    {
        self.app_index
    }

    /// The entry stands for all applications.
    pub fn is_all_applications(&self) -> (r: bool)
        ensures
            r == (self.app_index == u32::MAX),
    {
        self.app_index == ALL_APPLICATIONS
    }
}

} // verus!
