//! The logic of two pieces of a retained-mode interface: the sidebar widgets
//! and the rotation that a scene node takes from its `rotate` attribute.
//!
//! Nothing here draws or talks to a window. The functions take plain values,
//! say in their contracts what they return, and leave rendering, the pointer
//! cursor and the reading of decimal numbers to the program around them.

pub mod degrees;
pub mod text;
pub mod transform;
pub mod sidebar;
