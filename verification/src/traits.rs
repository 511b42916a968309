//! The narrow adapter interface the GUI layer implements for its widgets,
//! and the plain size value handed through it.

use vstd::prelude::*;

verus! {

/// A width/height pair passed to the GUI layer.
#[derive(Clone, Copy, Debug, PartialEq, Eq, Structural)]
pub struct Size {
    pub width: u32,
    pub height: u32,
}

impl Default for Size {
    fn default() -> (r: Self)
        ensures
            r.width == 0 && r.height == 0,
    {
        Size { width: 0, height: 0 }
    }
}

/// Styling hooks a widget type offers: the GUI layer implements these for
/// its own widget types.
pub trait NotWidgetExt {
    fn set_request_size(&self, size: Size);

    fn set_classes(&self, classes: &[&str]);

    fn set_font_family(&self, family: &str);

    fn set_font_size(&self, size: u32);
}

/// Sizing hook a window type offers: the GUI layer implements it for its
/// own window types.
pub trait NotWindowExt {
    fn set_size(&self, size: Size);
}

} // verus!
