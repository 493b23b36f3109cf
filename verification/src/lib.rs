//! Verified core of a desktop shell that hosts a rendering engine: frame
//! presentation, backing-store management and start-up synchronisation.

pub mod application;
pub mod builder;
pub mod compositor;
pub mod context;
pub mod cursor;
pub mod display;
pub mod embedder;
pub mod frame;
pub mod gl;
pub mod opengl;
pub mod platform_message;
pub mod startup;
pub mod view;
