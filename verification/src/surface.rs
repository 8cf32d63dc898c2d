//! The drawing surface that the renderer asks its host page for.

use vstd::prelude::*;

verus! {

/// The kind of graphics context.
#[derive(Clone, Copy, Debug, PartialEq, Eq)]
pub enum ContextKind {
    WebGl,
    WebGl2,
}

/// Attributes handed over when the context is created.
#[derive(Clone, Copy, Debug, PartialEq, Eq)]
pub struct ContextAttributes {
    pub xr_compatible: bool,
}

/// A graphics context to create on a fresh drawing surface.
#[derive(Clone, Copy, Debug, PartialEq, Eq)]
pub struct ContextRequest {
    pub kind: ContextKind,
    pub attributes: Option<ContextAttributes>,
}

/// The context for a renderer: always of the second generation, and made
/// compatible with the XR render target exactly when `xr_mode` asks for it.
/// Without `xr_mode` no attributes are handed over.
pub open spec fn context_request(xr_mode: bool) -> ContextRequest {
    ContextRequest {
        kind: ContextKind::WebGl2,
        attributes: if xr_mode {
            Some(ContextAttributes { xr_compatible: true })
        } else {
            None
        },
    }
}

/// Describes the graphics context to create. The driver creates the surface
/// and the context from the description.
pub fn create_webgl_context(xr_mode: bool) -> (request: ContextRequest)
    ensures
        request == context_request(xr_mode),
{
    if xr_mode {
        ContextRequest {
            kind: ContextKind::WebGl2,
            attributes: Some(ContextAttributes { xr_compatible: true }),
        }
    } else {
        ContextRequest { kind: ContextKind::WebGl2, attributes: None }
    }
}

} // verus!
