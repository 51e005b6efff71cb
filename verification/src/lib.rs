//! A point-and-click game toolkit: the Graph Style Sheet (GSS) format that
//! describes scenes and styles, the game engine that turns player events into
//! state changes, and the helpers that read colors, lengths and layouts from
//! style sheets.

pub mod clock;
pub mod color;
pub mod demo;
pub mod engine;
pub mod fields;
pub mod gss;
pub mod hud;
pub mod laws;
pub mod layout;
pub mod number;
pub mod runner;
pub mod state;
pub mod text;
pub mod ui;
pub mod view;
