//! Errors of window creation.

use vstd::prelude::*;

verus! {

/// Errors while creating an event loop or a window
#[derive(Debug, Clone, Copy, PartialEq, Eq, Structural)]
pub enum WindowError {
    EventLoop,
    Window,
}

/// Text that describes `e`.
pub open spec fn window_error_text(e: WindowError) -> Seq<char> {
    match e {
        WindowError::EventLoop => "Failed to create eventloop (winit error)"@,
        WindowError::Window => "Failed to create window (winit error)"@,
    }
}

impl WindowError {
    /// Human readable description of the error
    pub fn message(&self) -> (r: &'static str)
        ensures
            r@ == window_error_text(*self),
    {
        match self {
            WindowError::EventLoop => "Failed to create eventloop (winit error)",
            WindowError::Window => "Failed to create window (winit error)",
        }
    }
}

} // verus!
