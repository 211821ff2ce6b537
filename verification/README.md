# Wokio

The Tokio API for the web: tasks, timers and intervals that run inside a
JavaScript runtime.

The library under `src/` is written in Verus and decides; it neither reads the
clock nor registers timers nor polls futures. What was observed is handed to it
as plain values, and it returns what has to be done next.

  * `web::task` spawns, aborts and joins tasks. `web::task::select` chooses
    between the work of a task and a request to abort it, `web::task::join_set`
    keeps collections of tasks.
  * `web::runtime` is the handle through which tasks are spawned.
  * `web::time` holds sleeps, timeouts and intervals, `web::time::js` the chunks
    in which a long sleep is performed, `web::time::threads` sleeps that are
    requested from another thread and `web::time::instant` the clock.
  * `web::channel` states what is relied upon of Tokio's channels.
  * `ext` probes for threads, names tasks and turns intervals into streams.
  * `thread_bound` binds a value to the thread that created it.
  * `native` is what differs on native platforms.

The code under `app/` is ordinary Rust: it connects the library to Tokio, to
`setTimeout` and `performance.now()`, and to the traits of the standard library.
