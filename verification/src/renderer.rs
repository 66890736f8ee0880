//! Making a renderer for a window once the system has a surface for it.

use crate::geometry::Rect;
use crate::text::joined;
use vstd::prelude::*;
use vstd::string::*;

verus! {

/// Why a window has no renderer.
#[derive(Debug)]
pub enum RendererError {
    /// There is no connection to the system.
    AppUnavailable,
    /// The system has no surface for the window yet.
    NativeWindowUnavailable,
    /// The surface has no handle, for this reason.
    HandleUnavailable(String),
    /// The renderer could not be made, for this reason.
    CreationFailed(String),
}

impl RendererError {
    /// The text of the error.
    pub open spec fn text(self) -> Seq<char> {
        match self {
            RendererError::AppUnavailable =>
                "OpenHarmonyApp not available when initializing renderer"@,
            RendererError::NativeWindowUnavailable =>
                "native_window not available yet - SurfaceCreate event may not have been received"@,
            RendererError::HandleUnavailable(reason) => "Window handle not available: "@ + reason@,
            RendererError::CreationFailed(reason) => "Failed to create Wgpu renderer: "@ + reason@
                + ". Make sure native_window is available from OpenHarmonyApp."@,
        }
    }

    /// The text of the error.
    pub fn message(&self) -> (r: String)
        ensures
            r@ == self.text(),
    {
        match self {
            RendererError::AppUnavailable =>
                "OpenHarmonyApp not available when initializing renderer".to_owned(),
            RendererError::NativeWindowUnavailable =>
                "native_window not available yet - SurfaceCreate event may not have been received".to_owned(),
            RendererError::HandleUnavailable(reason) => joined(
                "Window handle not available: ",
                reason.as_str(),
            ),
            RendererError::CreationFailed(reason) => {
                let mut text = joined("Failed to create Wgpu renderer: ", reason.as_str());
                text.append(". Make sure native_window is available from OpenHarmonyApp.");
                text
            },
        }
    }
}

/// What the system has for a window.
#[derive(Clone, Copy, Debug, PartialEq, Eq, Structural)]
pub struct SurfaceFacts {
    /// The drawable surface; `None` without a connection to the system.
    pub content_rect: Option<Rect>,
    /// Whether there is a native window to draw on.
    pub native_window: bool,
    /// The size of the window's bounds, for where the surface has none.
    pub bounds_width: u32,
    pub bounds_height: u32,
}

/// The renderer to make.
#[derive(Clone, Copy, Debug, PartialEq, Eq, Structural)]
pub struct SurfacePlan {
    /// The size of the surface, in device pixels.
    pub width: i32,
    pub height: i32,
    pub transparent: bool,
    /// The rectangle in device pixels that the window's bounds become; `None`
    /// where they stay.
    pub bounds: Option<Rect>,
}

/// What to do for a renderer.
#[derive(Clone, Copy, Debug, PartialEq, Eq, Structural)]
pub enum RendererPlan {
    /// There is one.
    Ready,
    Create(SurfacePlan),
}

/// A surface length: that of the drawable surface where it has one, else that
/// of the window's bounds.
pub open spec fn surface_length(content: i32, bounds: u32) -> i32 {
    if content > 0 {
        content
    } else {
        bounds as i32
    }
}

/// The renderer for a surface.
pub open spec fn surface_plan(content: Rect, facts: SurfaceFacts) -> SurfacePlan {
    SurfacePlan {
        width: surface_length(content.width, facts.bounds_width),
        height: surface_length(content.height, facts.bounds_height),
        transparent: true,
        bounds: if content.width > 0 && content.height > 0 {
            Some(content)
        } else {
            None
        },
    }
}

fn length(content: i32, bounds: u32) -> (r: i32)
    ensures
        r == surface_length(content, bounds),
{
    if content > 0 {
        content
    } else {
        #[verifier::truncate]
        (bounds as i32)
    }
}

/// What to do for a renderer: nothing where there is one; otherwise it takes a
/// connection to the system and then a surface.
pub open spec fn planned(ready: bool, facts: SurfaceFacts) -> Result<RendererPlan, RendererError> {
    if ready {
        Ok(RendererPlan::Ready)
    } else {
        match facts.content_rect {
            None => Err(RendererError::AppUnavailable),
            Some(content) => if facts.native_window {
                Ok(RendererPlan::Create(surface_plan(content, facts)))
            } else {
                Err(RendererError::NativeWindowUnavailable)
            },
        }
    }
}

/// Decides what to do for a renderer.
pub fn plan_renderer(ready: bool, facts: SurfaceFacts) -> (r: Result<RendererPlan, RendererError>)
    ensures
        r == planned(ready, facts),
        ready ==> r == Ok::<RendererPlan, RendererError>(RendererPlan::Ready),
        r == Err::<RendererPlan, RendererError>(RendererError::AppUnavailable) <==> !ready
            && facts.content_rect is None,
        r == Err::<RendererPlan, RendererError>(RendererError::NativeWindowUnavailable) <==> !ready
            && facts.content_rect is Some && !facts.native_window,
        !ready && facts.content_rect is Some && facts.native_window ==> r == Ok::<
            RendererPlan,
            RendererError,
        >(RendererPlan::Create(surface_plan(facts.content_rect->0, facts))),
{
    if ready {
        return Ok(RendererPlan::Ready);
    }
    let content = match facts.content_rect {
        Some(content) => content,
        None => {
            return Err(RendererError::AppUnavailable);
        },
    };
    if !facts.native_window {
        return Err(RendererError::NativeWindowUnavailable);
    }
    let bounds = if content.width > 0 && content.height > 0 {
        Some(content)
    } else {
        None
    };
    Ok(
        RendererPlan::Create(
            SurfacePlan {
                width: length(content.width, facts.bounds_width),
                height: length(content.height, facts.bounds_height),
                transparent: true,
                bounds,
            },
        ),
    )
}

/// Takes the outcome of asking the surface for its handle.
pub fn checked_handle(handle: Result<(), String>) -> (r: Result<(), RendererError>)
    ensures
        r is Ok <==> handle is Ok,
        handle is Err ==> r == Err::<(), RendererError>(
            RendererError::HandleUnavailable(handle->Err_0),
        ),
{
    match handle {
        Ok(()) => Ok(()),
        Err(reason) => Err(RendererError::HandleUnavailable(reason)),
    }
}

/// A surface with a size gives the renderer and the window's bounds that size.
pub proof fn law_surface_size_wins(content: Rect, facts: SurfaceFacts)
    requires
        content.width > 0,
        content.height > 0,
    ensures
        surface_plan(content, facts).width == content.width,
        surface_plan(content, facts).height == content.height,
        surface_plan(content, facts).bounds == Some(content),
{
}

/// Each length of the renderer's surface is that of the drawable surface where it has
/// one, whatever the other length is, and otherwise that of the window's bounds, which
/// stay. The surface is transparent.
pub proof fn law_missing_length_comes_from_bounds(content: Rect, facts: SurfaceFacts)
    ensures
        ({
            let plan = surface_plan(content, facts);
            &&& content.width > 0 ==> plan.width == content.width
            &&& content.height > 0 ==> plan.height == content.height
            &&& content.width <= 0 && facts.bounds_width <= i32::MAX ==> plan.width
                == facts.bounds_width
            &&& content.height <= 0 && facts.bounds_height <= i32::MAX ==> plan.height
                == facts.bounds_height
            &&& plan.bounds is Some <==> content.width > 0 && content.height > 0
            &&& plan.transparent
        }),
{
}

/// The text of an error says what is missing and repeats the reason, where there is
/// one.
pub proof fn law_renderer_error_texts(reason: String)
    ensures
        RendererError::AppUnavailable.text()
            == "OpenHarmonyApp not available when initializing renderer"@,
        RendererError::NativeWindowUnavailable.text()
            == "native_window not available yet - SurfaceCreate event may not have been received"@,
        RendererError::HandleUnavailable(reason).text() == "Window handle not available: "@
            + reason@,
        RendererError::CreationFailed(reason).text() == "Failed to create Wgpu renderer: "@
            + reason@ + ". Make sure native_window is available from OpenHarmonyApp."@,
{
}

/// A renderer that is there is never made again. One that is not is made exactly where
/// there are a connection to the system and a surface, and the connection is missed
/// first.
pub proof fn law_renderer_is_made_once(ready: bool, facts: SurfaceFacts)
    ensures
        ({
            let plan = planned(ready, facts);
            &&& ready <==> plan is Ok && plan->Ok_0 is Ready
            &&& plan is Ok && plan->Ok_0 is Create <==> !ready && facts.content_rect is Some
                && facts.native_window
            &&& plan is Err && plan->Err_0 is AppUnavailable <==> !ready && facts.content_rect
                is None
            &&& plan is Err && plan->Err_0 is NativeWindowUnavailable <==> !ready
                && facts.content_rect is Some && !facts.native_window
            &&& plan matches Ok(RendererPlan::Create(made)) ==> {
                &&& facts.content_rect->0.width > 0 ==> made.width == facts.content_rect->0.width
                &&& facts.content_rect->0.height > 0 ==> made.height
                    == facts.content_rect->0.height
                &&& made.transparent
            }
        }),
{
}

} // verus!
