//! The decision logic of a small visual-novel dialogue player: the dialogue
//! script and its lookups, the per-frame state machine that walks through the
//! script and keeps track of which characters are on stage, the slot layout of
//! the characters, and the asset paths derived from the configuration.
pub mod assets;
pub mod layout;
pub mod scene;
pub mod script;
pub mod sprite;
