// A small HTTP service's logic: a wrapping factorial rendered in decimal, the
// greeting route, the middleware limits, and the phases of a graceful shutdown.
pub mod decimal;
pub mod factorial;
pub mod server;
