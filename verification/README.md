# ngx_async

Asynchronous tasks on the thread of an NGINX event loop.

A task that becomes ready is run at once where that is safe, on the event loop thread. Otherwise it
is queued, and the event loop is notified and drains the queue.

- `src/` takes every decision and keeps the queue. It is verified with Verus. Its functions take
  the state and an event and return the action to perform next.
- `src/system.rs` proves what holds of all runs: tasks run in the order in which they were queued,
  each exactly once, on the event loop thread only, and none is left behind unnoticed.
- `src/channel.rs` states what is relied on of the channel crate.
- `app/` performs the actions: it runs tasks and calls into NGINX. It needs `nginx_sys`, which is
  built against an NGINX source tree.
