//! Window identities and handles.
//!
//! A [`WindowId`] names a window for the lifetime of the application; an
//! [`AnyWindowHandle`] pairs it with a tag for the window's root view
//! type, and can be downcast back to a typed [`WindowHandle`] by anyone
//! who knows the tag.

use vstd::prelude::*;

use crate::geom::Bounds;
use crate::geom::Point;
use crate::geom::Size;

verus! {

/// The default size of a window opened with no bounds of its own.
pub const DEFAULT_WINDOW_WIDTH: i64 = 1024;

/// The default size of a window opened with no bounds of its own.
pub const DEFAULT_WINDOW_HEIGHT: i64 = 700;

/// How far a new window is offset from the active one.
pub const DEFAULT_WINDOW_OFFSET_Y: i64 = 35;

/// A unique identifier for a window.
#[derive(Clone, Copy, Debug, PartialEq, Eq, Hash, Structural)]
pub struct WindowId {
    /// The packed form of the identifier.
    pub raw: u64,
}

impl WindowId {
    /// Converts this window id to its packed 64-bit form.
    pub fn as_u64(&self) -> (r: u64)
        ensures
            r == self.raw,
    {
        self.raw
    }

    /// Rebuilds a window id from its packed 64-bit form.
    pub fn from_u64(value: u64) -> (r: WindowId)
        ensures
            r.raw == value,
    {
        WindowId { raw: value }
    }
}

/// A handle to a window with a specific root view type (named by its
/// tag). It does not keep the window alive on its own.
#[derive(Clone, Copy, Debug, PartialEq, Eq, Structural)]
pub struct WindowHandle {
    /// The untyped handle this one wraps.
    pub any_handle: AnyWindowHandle,
}

/// A handle to a window with any root view type; can be downcast to a
/// typed handle by whoever knows the root view's tag.
#[derive(Clone, Copy, Debug, PartialEq, Eq, Hash, Structural)]
pub struct AnyWindowHandle {
    /// The window's identifier.
    pub id: WindowId,
    /// The tag of the root view's type; zero tags an untyped window.
    pub state_type: u64,
}

impl AnyWindowHandle {
    /// Builds an untyped handle from a window id.
    pub fn new(id: WindowId) -> (r: Self)
        ensures
            r == (AnyWindowHandle { id, state_type: 0u64 }),
    {
        Self { id, state_type: 0 }
    }

    /// Builds a handle whose root view carries the given type tag.
    pub fn new_tagged(id: WindowId, state_type: u64) -> (r: Self)
        ensures
            r == (AnyWindowHandle { id, state_type }),
    {
        Self { id, state_type }
    }

    /// The id of this window.
    pub fn window_id(&self) -> (r: WindowId)
        ensures
            r == self.id,
    {
        self.id
    }

    /// Attempts to convert this handle to one typed with the given root
    /// view tag; nothing if the tags do not match.
    pub fn downcast(&self, state_type: u64) -> (r: Option<WindowHandle>)
        ensures
            r == if self.state_type == state_type {
                Option::Some((WindowHandle { any_handle: *self }))
            } else {
                Option::<WindowHandle>::None
            },
    {
        if self.state_type == state_type {
            Some(WindowHandle { any_handle: *self })
        } else {
            None
        }
    }
}

/// The bounds a new window opens with: the active window's bounds
/// shifted down, else the display's default, else a default-sized
/// rectangle at the origin.
pub fn default_bounds(
    active_window_bounds: Option<Bounds>,
    display_default: Option<Bounds>,
) -> (r: Bounds)
    requires
        active_window_bounds is Some ==> active_window_bounds->Some_0.wf(),
    ensures
        r == match active_window_bounds {
            Option::Some(b) => (Bounds {
                origin: (Point { x: b.origin.x, y: (b.origin.y + DEFAULT_WINDOW_OFFSET_Y) as i64 }),
                size: b.size,
            }),
            Option::None => match display_default {
                Option::Some(d) => d,
                Option::None => (Bounds {
                    origin: (Point { x: 0, y: 0 }),
                    size: (Size {
                        width: DEFAULT_WINDOW_WIDTH,
                        height: DEFAULT_WINDOW_HEIGHT,
                    }),
                }),
            },
        },
{
    match active_window_bounds {
        Option::Some(b) => Bounds {
            origin: Point { x: b.origin.x, y: b.origin.y + DEFAULT_WINDOW_OFFSET_Y },
            size: b.size,
        },
        Option::None => match display_default {
            Option::Some(d) => d,
            Option::None => Bounds {
                origin: Point { x: 0, y: 0 },
                size: Size { width: DEFAULT_WINDOW_WIDTH, height: DEFAULT_WINDOW_HEIGHT },
            },
        },
    }
}

} // verus!
