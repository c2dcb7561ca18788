//! Verified core of a runtime interception toolkit.
//!
//! The library models the decision logic of an injected overlay system:
//! installing function hooks, swizzling dispatch targets exactly once,
//! watching module loads, queueing normalized pointer input, and planning
//! overlay draw commands. The platform calls themselves (object-runtime
//! messaging, loader introspection, GPU submission) live outside the
//! library; every function here is verified.

pub mod alert;
pub mod errors;
pub mod game;
pub mod guard;
pub mod hachimi;
pub mod input;
pub mod interceptor;
pub mod logging;
pub mod overlay;
pub mod renderer;
pub mod scissor;
pub mod swizzle;
pub mod symbols;
pub mod text;
pub mod watcher;

pub use errors::HookError;
pub use errors::HookFault;
