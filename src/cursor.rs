//! Mouse cursor shapes, and the stock Win32 cursor that shows each.
use vstd::prelude::*;

verus! {

/// The shape of the mouse cursor over a window.
#[derive(Clone, Copy, Debug, PartialEq, Eq, Structural)]
pub enum MouseCursor {
    Default,
    Hand,
    HandGrabbing,
    Help,
    Hidden,
    Text,
    VerticalText,
    Working,
    PtrWorking,
    NotAllowed,
    PtrNotAllowed,
    ZoomIn,
    ZoomOut,
    Alias,
    Copy,
    Move,
    AllScroll,
    Cell,
    Crosshair,
    Pointer,
    EResize,
    NResize,
    NeResize,
    NwResize,
    SResize,
    SeResize,
    SwResize,
    WResize,
    EwResize,
    NsResize,
    NwseResize,
    NeswResize,
    ColResize,
    RowResize,
}

/// A stock cursor of Win32 (`IDC_*`).
#[derive(Clone, Copy, Debug, PartialEq, Eq, Structural)]
pub enum SystemCursor {
    Arrow,
    Hand,
    SizeAll,
    Help,
    IBeam,
    Wait,
    No,
    Cross,
    SizeWe,
    SizeNs,
    SizeNesw,
    SizeNwse,
}

impl SystemCursor {
    /// The resource number of the stock cursor (`IDC_*`).
    pub open spec fn resource_spec(self) -> u16 {
        match self {
            SystemCursor::Arrow => 32512,
            SystemCursor::IBeam => 32513,
            SystemCursor::Wait => 32514,
            SystemCursor::Cross => 32515,
            SystemCursor::SizeNwse => 32642,
            SystemCursor::SizeNesw => 32643,
            SystemCursor::SizeWe => 32644,
            SystemCursor::SizeNs => 32645,
            SystemCursor::SizeAll => 32646,
            SystemCursor::No => 32648,
            SystemCursor::Hand => 32649,
            SystemCursor::Help => 32651,
        }
    }

    /// The resource number to load the stock cursor by.
    pub fn resource_id(&self) -> (r: u16)
        ensures
            r == self.resource_spec(),
    {
        match self {
            SystemCursor::Arrow => 32512,
            SystemCursor::IBeam => 32513,
            SystemCursor::Wait => 32514,
            SystemCursor::Cross => 32515,
            SystemCursor::SizeNwse => 32642,
            SystemCursor::SizeNesw => 32643,
            SystemCursor::SizeWe => 32644,
            SystemCursor::SizeNs => 32645,
            SystemCursor::SizeAll => 32646,
            SystemCursor::No => 32648,
            SystemCursor::Hand => 32649,
            SystemCursor::Help => 32651,
        }
    }
}

impl MouseCursor {
    /// The stock cursor that shows this shape on Win32; shapes without a
    /// stock cursor of their own show the arrow.
    pub open spec fn windows_cursor(self) -> SystemCursor {
        match self {
            MouseCursor::Hand | MouseCursor::Pointer => SystemCursor::Hand,
            MouseCursor::HandGrabbing | MouseCursor::Move | MouseCursor::ZoomIn
            | MouseCursor::ZoomOut | MouseCursor::AllScroll => SystemCursor::SizeAll,
            MouseCursor::Help => SystemCursor::Help,
            MouseCursor::Text | MouseCursor::VerticalText => SystemCursor::IBeam,
            MouseCursor::Working | MouseCursor::PtrWorking => SystemCursor::Wait,
            MouseCursor::NotAllowed | MouseCursor::PtrNotAllowed => SystemCursor::No,
            MouseCursor::Crosshair => SystemCursor::Cross,
            MouseCursor::EResize | MouseCursor::WResize | MouseCursor::EwResize
            | MouseCursor::ColResize => SystemCursor::SizeWe,
            MouseCursor::NResize | MouseCursor::SResize | MouseCursor::NsResize
            | MouseCursor::RowResize => SystemCursor::SizeNs,
            MouseCursor::NeResize | MouseCursor::SwResize
            | MouseCursor::NeswResize => SystemCursor::SizeNesw,
            MouseCursor::NwResize | MouseCursor::SeResize
            | MouseCursor::NwseResize => SystemCursor::SizeNwse,
            _ => SystemCursor::Arrow,
        }
    }

    pub fn to_windows_cursor(self) -> (r: SystemCursor)
        ensures
            r == self.windows_cursor(),
    {
        match self {
            MouseCursor::Hand | MouseCursor::Pointer => SystemCursor::Hand,
            MouseCursor::HandGrabbing | MouseCursor::Move | MouseCursor::ZoomIn
            | MouseCursor::ZoomOut | MouseCursor::AllScroll => SystemCursor::SizeAll,
            MouseCursor::Help => SystemCursor::Help,
            MouseCursor::Text | MouseCursor::VerticalText => SystemCursor::IBeam,
            MouseCursor::Working | MouseCursor::PtrWorking => SystemCursor::Wait,
            MouseCursor::NotAllowed | MouseCursor::PtrNotAllowed => SystemCursor::No,
            MouseCursor::Crosshair => SystemCursor::Cross,
            MouseCursor::EResize | MouseCursor::WResize | MouseCursor::EwResize
            | MouseCursor::ColResize => SystemCursor::SizeWe,
            MouseCursor::NResize | MouseCursor::SResize | MouseCursor::NsResize
            | MouseCursor::RowResize => SystemCursor::SizeNs,
            MouseCursor::NeResize | MouseCursor::SwResize
            | MouseCursor::NeswResize => SystemCursor::SizeNesw,
            MouseCursor::NwResize | MouseCursor::SeResize
            | MouseCursor::NwseResize => SystemCursor::SizeNwse,
            _ => SystemCursor::Arrow,
        }
    }
}

} // verus!
