//! Layout and widget core of a retained-mode user-interface toolkit.
//!
//! A tree of widgets declares its sizing constraints as [`node::Node`] trees,
//! the built-in engine in [`engine`] resolves a node tree into a tree of
//! absolute rectangles ([`layout::Layout`]), and the widgets in [`widget`]
//! receive input events and draw themselves against that geometry through
//! narrow renderer capability traits that a concrete backend implements.

pub mod column;
pub mod element;
pub mod engine;
pub mod graphics;
pub mod hasher;
pub mod input;
pub mod geometry;
pub mod layout;
pub mod node;
pub mod radio;
pub mod row;
pub mod style;
pub mod text;
pub mod widget;
