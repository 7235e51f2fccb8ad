//! What a view that shows a rendered image offers.
use vstd::prelude::*;
use crate::widget::{TheRGBABuffer, TheWidget};

verus! {

/// A widget that shows a rendered image, which the renderer writes into.
pub trait TheRenderViewTrait: TheWidget {
    fn render_buffer_mut(&mut self) -> &mut TheRGBABuffer;
}

} // verus!
