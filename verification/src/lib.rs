//! Scheduling of asynchronous tasks on the thread of an NGINX event loop.
//!
//! A task that becomes ready is either run at once, on the event loop thread, or put into a
//! queue, after which the event loop is notified and drains the queue. This library takes those
//! decisions and keeps the queue. Each function takes the state and an event, and returns the
//! action that the caller performs next: run a task, call into NGINX, or stop with an error. The
//! caller then reports the outcome as the next event.
//!
//! - [`event_thread`]: which thread the event loop runs on.
//! - [`scheduler`]: the queue, and where a ready task goes.
//! - [`handler`]: the event handler that drains the queue.
//! - [`sigio`] and [`eventfd`]: two ways to notify the event loop.
//! - [`system`]: what holds of all of these together, over every run.

mod channel;
pub mod event_thread;
pub mod eventfd;
pub mod handler;
pub mod notification;
pub mod scheduler;
pub mod sigio;
pub mod system;
