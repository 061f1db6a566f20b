//! A DirectX 9 overlay that lives inside another process, and the injector
//! that puts it there.
//!
//! The crate holds the decisions of both halves as state machines over plain
//! values: which frame toggles the menu, when the module asks to be unloaded,
//! how often a console is allocated, and in which order the injector touches
//! the payload file and the target process. The caller performs the actions
//! the machines ask for and reports back what happened.

pub mod console;
pub mod error;
pub mod injector;
pub mod input;
pub mod overlay;
pub mod payload;
pub mod unload;

pub use error::{HookError, InjectionFailure, Remedy};
pub use input::KeySample;
pub use overlay::{D3D9RenderLoop, FramePlan};
pub use unload::{UnloadAction, UnloadLatch};
