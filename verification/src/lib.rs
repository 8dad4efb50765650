//! The editing logic of a small vector drawing editor: the document with
//! its boolean groups and undo history, the drawing tools, palettes and
//! themes. Geometry and drawing are left to the program around it.

use vstd::prelude::*;

pub mod boolean;
pub mod document;
pub mod editor;
pub mod export;
pub mod grid;
pub mod history;
pub mod keys;
pub mod palette;
pub mod panels;
pub mod shape;
pub mod theme;
pub mod tool;

verus! {

} // verus!
