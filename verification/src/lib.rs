//! The bootstrap layer of a small application framework: the protocol by which
//! a platform thread, which owns the window and the operating system's event
//! loop, and a logic thread, which owns the application, exchange events and
//! bring each other to an orderly stop.
//!
//! Both sides are state machines. Each takes what its thread has just observed
//! and answers with the ordered list of things that the thread must now do; the
//! threads themselves, the channels between them and the window stay outside.

pub mod config;
pub mod engine;
pub mod io;
pub mod keys;
pub mod log;
pub mod runner;
pub mod vec2;
pub mod vec3;
pub mod vec4;

pub use crate::config::{AppConfig, PantheonEvent};
pub use crate::engine::{Application, Callback, Delivery, Engine, LogicAction};
pub use crate::io::{
    AppIO, Directive, IOError, IOEvent, Phase, PlatformInput, RawEvent, StartFailure,
};
pub use crate::log::LogLevel;
pub use crate::runner::{conclude, JoinOutcome, PantheonError};
pub use crate::vec2::Vec2;
pub use crate::vec3::Vec3;
pub use crate::vec4::Vec4;
