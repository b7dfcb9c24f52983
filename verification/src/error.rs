//! Construction-time errors surfaced to the host application, and the
//! decision of where the drawing surface is mounted.

use vstd::prelude::*;
use vstd::string::StringExecFns;

verus! {

/// Why constructing the renderer's host environment failed.  These are
/// raised synchronously during construction and are not recoverable
/// internally.
#[derive(Clone, Debug, PartialEq, Eq)]
#[non_exhaustive]
pub enum InitError {
    NoWindow,
    NoDocument,
    ElementCreationFailed(String),
    NoContainer,
    AppendChildFailed(String),
}

impl InitError {
    /// The error's message as the host surfaces it; the element and
    /// append failures carry the underlying host error text.
    pub fn message(&self) -> (r: String)
        ensures
            *self is NoWindow ==> r@ == "no window"@,
            *self is NoDocument ==> r@ == "no document"@,
            *self is NoContainer ==> r@ == "no container"@,
            forall|s: String| #![auto]
                *self == InitError::ElementCreationFailed(s) ==> r@ == "element creation failed\n"@
                    + s@,
            forall|s: String| #![auto]
                *self == InitError::AppendChildFailed(s) ==> r@ == "failed to append child\n"@
                    + s@,
    {
        match self {
            InitError::NoWindow => "no window".to_owned(),
            InitError::NoDocument => "no document".to_owned(),
            InitError::NoContainer => "no container".to_owned(),
            InitError::ElementCreationFailed(s) => "element creation failed\n".to_owned().concat(
                s.as_str(),
            ),
            InitError::AppendChildFailed(s) => "failed to append child\n".to_owned().concat(
                s.as_str(),
            ),
        }
    }
}

/// Where the drawing surface is mounted: the explicitly supplied
/// container, or the document body as the fallback.
#[derive(Clone, Copy, Debug, PartialEq, Eq, Structural)]
pub enum ContainerTarget {
    Supplied,
    Body,
}

/// Decides where to mount the drawing surface: an explicit container
/// wins, the document body is the fallback, and with neither available
/// construction fails.
pub fn choose_container(has_container: bool, has_body: bool) -> (r: Result<
    ContainerTarget,
    InitError,
>)
    ensures
        has_container ==> r == Ok::<ContainerTarget, InitError>(ContainerTarget::Supplied),
        !has_container && has_body ==> r == Ok::<ContainerTarget, InitError>(
            ContainerTarget::Body,
        ),
        !has_container && !has_body ==> r == Err::<ContainerTarget, InitError>(
            InitError::NoContainer,
        ),
{
    if has_container {
        Ok(ContainerTarget::Supplied)
    } else if has_body {
        Ok(ContainerTarget::Body)
    } else {
        Err(InitError::NoContainer)
    }
}

} // verus!
