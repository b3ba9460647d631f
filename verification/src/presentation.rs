//! Decisions of the loop that owns the window and the surface.
//!
//! The loop reports what happened in plain values and is told what to do
//! next. It performs the answer itself: this module touches neither a window
//! nor a device.

use vstd::prelude::*;

verus! {

/// The size of a surface in pixels.
#[derive(Clone, Copy, Debug, PartialEq, Eq, Structural)]
pub struct SurfaceSize {
    pub width: u32,
    pub height: u32,
}

/// What the window reported.
#[derive(Clone, Copy, Debug, PartialEq, Eq, Structural)]
pub enum WindowSignal {
    /// The user asked to close the window.
    CloseRequested,
    /// The escape key went down.
    EscapePressed,
    /// The window has a new size.
    Resized(SurfaceSize),
    /// The window wants a new frame.
    RedrawRequested,
    /// Anything else.
    Other,
}

/// What the loop does about a signal.
#[derive(Clone, Copy, Debug, PartialEq, Eq, Structural)]
pub enum LoopAction {
    /// Leave the loop.
    Exit,
    /// Offer the size to the surface.
    Resize(SurfaceSize),
    /// Render one frame.
    Render,
    /// Nothing.
    Ignore,
}

/// Why the surface gave no frame to draw on.
#[derive(Clone, Copy, Debug, PartialEq, Eq, Structural)]
pub enum SurfaceFailure {
    Timeout,
    Outdated,
    Lost,
    OutOfMemory,
    Other,
}

/// What the loop does when the surface gave no frame.
#[derive(Clone, Copy, Debug, PartialEq, Eq, Structural)]
pub enum Recovery {
    /// Configure the surface again and go on.
    Reconfigure,
    /// Leave the loop.
    Exit,
    /// Drop this frame and go on.
    Skip,
}

/// The action that a signal calls for.
pub open spec fn action_for(signal: WindowSignal) -> LoopAction {
    match signal {
        WindowSignal::CloseRequested => LoopAction::Exit,
        WindowSignal::EscapePressed => LoopAction::Exit,
        WindowSignal::Resized(size) => LoopAction::Resize(size),
        WindowSignal::RedrawRequested => LoopAction::Render,
        WindowSignal::Other => LoopAction::Ignore,
    }
}

/// The recovery that a failure calls for: a surface that is lost or out of
/// date is configured again, a timeout costs one frame, and anything else
/// ends the loop.
pub open spec fn recovery_for(failure: SurfaceFailure) -> Recovery {
    match failure {
        SurfaceFailure::Lost => Recovery::Reconfigure,
        SurfaceFailure::Outdated => Recovery::Reconfigure,
        SurfaceFailure::OutOfMemory => Recovery::Exit,
        SurfaceFailure::Other => Recovery::Exit,
        SurfaceFailure::Timeout => Recovery::Skip,
    }
}

/// A surface can take a size that has pixels: neither side is zero.
pub open spec fn usable(size: SurfaceSize) -> bool {
    size.width > 0 && size.height > 0
}

/// Whether `at` is the position of the format to configure a surface with:
/// that of the first format that is sRGB, or the first position where none
/// is.
pub open spec fn preferred_at(srgb: Seq<bool>, at: int) -> bool {
    &&& 0 <= at < srgb.len()
    &&& forall|i: int| 0 <= i < at ==> !srgb[i]
    &&& srgb[at] || (at == 0 && forall|i: int| 0 <= i < srgb.len() ==> !srgb[i])
}

/// Decides what the loop does about a signal of the window.
pub fn on_signal(signal: WindowSignal) -> (action: LoopAction)
    ensures
        action == action_for(signal),
{
    match signal {
        WindowSignal::CloseRequested | WindowSignal::EscapePressed => LoopAction::Exit,
        WindowSignal::Resized(size) => LoopAction::Resize(size),
        WindowSignal::RedrawRequested => LoopAction::Render,
        WindowSignal::Other => LoopAction::Ignore,
    }
}

/// Decides what the loop does when the surface gave no frame.
pub fn on_failure(failure: SurfaceFailure) -> (recovery: Recovery)
    ensures
        recovery == recovery_for(failure),
{
    match failure {
        SurfaceFailure::Lost | SurfaceFailure::Outdated => Recovery::Reconfigure,
        SurfaceFailure::OutOfMemory | SurfaceFailure::Other => Recovery::Exit,
        SurfaceFailure::Timeout => Recovery::Skip,
    }
}

/// The size to configure the surface with, if it is to be configured at
/// all: the requested size where there is one and it has pixels.
pub fn resized(requested: Option<SurfaceSize>) -> (accepted: Option<SurfaceSize>)
    ensures
        accepted == (match requested {
            Some(size) => if usable(size) {
                Some(size)
            } else {
                None
            },
            None => None,
        }),
{
    match requested {
        Some(size) => {
            if size.width > 0 && size.height > 0 {
                Some(size)
            } else {
                None
            }
        },
        None => None,
    }
}

/// Picks the format to configure a surface with. `srgb` says of each format
/// that the surface offers, in the order offered, whether it is sRGB. A
/// surface that offers no format has none to pick.
pub fn preferred_format(srgb: &[bool]) -> (picked: Option<usize>)
    ensures
        match picked {
            Some(at) => preferred_at(srgb@, at as int),
            None => srgb@.len() == 0,
        },
{
    if srgb.len() == 0 {
        return None;
    }
    let mut at: usize = 0;
    while at < srgb.len()
        invariant
            at <= srgb@.len(),
            forall|i: int| 0 <= i < at ==> !srgb@[i],
        decreases srgb@.len() - at,
    {
        if srgb[at] {
            return Some(at);
        }
        at = at + 1;
    }
    Some(0)
}

/// At most one position is the preferred one.
pub proof fn lemma_preferred_unique(srgb: Seq<bool>, one: int, other: int)
    requires
        preferred_at(srgb, one),
        preferred_at(srgb, other),
    ensures
        one == other,
{
}

} // verus!
