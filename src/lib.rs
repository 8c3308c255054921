pub mod anime;
pub mod error;
pub mod fib;
pub mod ingest;
pub mod play;
pub mod queue;
pub mod registry;
pub mod session;
pub mod slap;
pub mod track;
pub mod urban;
pub mod voice;
