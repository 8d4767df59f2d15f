use vstd::prelude::*;

use crate::geometry::Size;
use crate::window::WindowScalePolicy;

verus! {

/// The options for opening a new window.
#[derive(Debug, Clone)]
pub struct WindowOpenOptions {
    pub title: String,
    /// The logical size of the window.
    pub size: Size,
    /// How the window picks its scale factor.
    pub scale: WindowScalePolicy,
}

} // verus!
