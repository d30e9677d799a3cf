//! What the player decides for the windowing backends that present its
//! pictures.

pub mod sdl;
