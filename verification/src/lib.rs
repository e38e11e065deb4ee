//! Verified core of a floating note widget that shies away from the pointer
//! unless the pointer aims at it.
pub mod interaction;
pub mod interaction_laws;
pub mod text;
pub mod color;
pub mod color_laws;
pub mod notes;
pub mod notes_laws;
pub mod permissions;
