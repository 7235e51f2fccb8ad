//! The nodes of a node canvas.
use vstd::prelude::*;
use crate::widget::{TheRGBABuffer, Vec2i, RGBA};

verus! {

/// An input or output of a node.
pub struct TheNodeTerminal {
    pub name: String,
    pub role: String,
    pub color: RGBA,
}

/// A node: its name, where it stands, its terminals and its preview.
pub struct TheNode {
    pub name: String,
    pub position: Vec2i,
    pub inputs: Vec<TheNodeTerminal>,
    pub outputs: Vec<TheNodeTerminal>,
    pub preview: TheRGBABuffer,
    pub supports_preview: bool,
    pub preview_is_open: bool,
}

} // verus!
