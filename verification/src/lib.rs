//! Main-thread dispatch bridge for a sandboxed, graphics-capable component.
//!
//! A hosted component runs its entry point on a worker thread, but every
//! windowing or surface-creation operation it triggers must execute on the
//! one privileged "main" thread that owns the platform event loop.  This
//! crate holds the verified core of that arrangement:
//!
//! - [`bridge`]: the dispatch channel and executor bookkeeping — work items
//!   submitted from workers are serviced by the main thread in submission
//!   order, and every item resolves exactly once (either with the value its
//!   work produced, or with a rejection once the executor has shut down).
//! - [`session`]: the component runtime session state machine — compile,
//!   link, instantiate, run — with its error taxonomy, and the rule that the
//!   event loop is only entered after a fully successful startup.
//! - [`host`]: the capability surface handed to the component's host-side
//!   implementations — the handle table, the execution context, the shared
//!   graphics device handle, and the dispatch proxy.
//!
//! The platform pieces themselves (the OS event loop, the component engine,
//! the GPU) are collaborators outside this crate; the embedding program
//! performs their work and feeds the outcomes to the types here.

pub mod bridge;
pub mod host;
pub mod session;
