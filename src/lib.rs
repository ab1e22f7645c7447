//! Supervision of a background worker process ("the sidecar") whose life is
//! bound to the hosting application's window: the environment it is started
//! with, the single slot that holds its handle, the idempotent teardown that
//! every lifecycle trigger converges on, and the loop that drains its output.

pub mod lifecycle;
pub mod environment;
pub mod drain;
