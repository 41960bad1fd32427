//! Cooperative, blocking-style network I/O for user-scheduled coroutines.
//!
//! Application coroutines issue ordinary-looking synchronous calls
//! (`accept`, `connect`, `read`, `write`, ...). Under the hood each call is a
//! non-blocking attempt; when the socket is not ready the coroutine suspends
//! on a per-socket readiness tracker and yields its worker thread, resuming
//! when the reactor reports the socket ready again or a deadline expires.
//!
//! This crate holds the verified core of that design: the readiness flag set,
//! the wait/notify protocol with its race-free suspend guard, the retry-loop
//! decision logic shared by every socket operation, the deadline rules, and
//! value-level models of a byte stream and of a listener's pending-connection
//! queue. The surrounding runtime — the reactor poll loop, the scheduler that
//! parks and resumes coroutines, and the raw OS socket calls — drives these
//! decision functions from outside; every decision it acts on is proved here.

pub mod datagram;
pub mod evented;
pub mod listener;
pub mod ready;
pub mod retry;
pub mod stream;
pub mod waiters;
