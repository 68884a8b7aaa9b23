use vstd::prelude::*;

verus! {

/// Why a frame could not be rendered, as the rendering target reports it.
#[derive(Clone, Debug)]
pub struct RenderError {
    pub message: String,
}

/// A target that the user interface can be rendered to, such as a WebGL
/// canvas. Each target implements it for itself.
pub trait Backend {
    /// Render one frame.
    fn render(&self) -> Result<(), RenderError>;
}

} // verus!
