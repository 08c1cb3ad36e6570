//! Background-work subsystem of a terminal repository browser.
//!
//! The crate keeps a single-threaded UI responsive while expensive,
//! cancellable work happens off the rendering path. It provides:
//!
//! - a single-flight job runner ([`single_job`]): at most one tracked job
//!   per kind, last-write-wins result slot, consume-once retrieval;
//! - a debounced filesystem watcher ([`watcher`]) that turns bursts of raw
//!   OS events into a low-frequency, payload-free change signal, with the
//!   coalescing policy itself stated and proved in [`debounce`];
//! - the canonical consumer of both ([`syntax_text`]): a file viewer that
//!   rejects stale highlighting results by path equality.

pub mod debounce;
pub mod keys;
pub mod notification;
pub mod single_job;
pub mod syntax_text;
pub mod watcher;
