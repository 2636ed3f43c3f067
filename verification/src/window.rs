//! The window contract the application loop is written against. Platform
//! backends implement it outside the verified core; the core only relies on
//! the shape of the interface, never on a particular backend.

use vstd::prelude::*;

use crate::error::UbiError;
use crate::event::Event;

verus! {

/// Configuration for creating a window.
pub struct WindowData<'a> {
    pub name: &'a str,
    pub width: usize,
    pub height: usize,
}

impl<'a> Default for WindowData<'a> {
    fn default() -> (r: Self)
        ensures
            r.name@ == "UBI"@,
            r.width == 1280,
            r.height == 720,
    {
        Self { name: "UBI", width: 1280, height: 720 }
    }
}

/// A platform window: it produces the frame's events and presents the frame.
/// `poll_events` appends this frame's platform events without blocking and
/// reports a platform failure through its result.
pub trait Window: Sized {
    fn create(window_data: WindowData<'_>) -> Result<Self, UbiError>;

    fn poll_events(&mut self, events: &mut Vec<Event>) -> Result<(), UbiError>;

    fn get_size(&self) -> (u32, u32);

    fn swap_buffers(&self);

    fn clear(&self);

    fn resize(&self, width: i32, height: i32);
}

} // verus!
