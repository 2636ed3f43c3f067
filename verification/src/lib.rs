//! A small game-engine core: a closed event model, a dispatcher, a layer
//! stack with layer/overlay partitioning, and the application loop that
//! routes platform events through the stack.

pub mod app;
pub mod error;
pub mod event;
pub mod layer;
pub mod text;
pub mod window;
