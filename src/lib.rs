//! The core of an interactive command line: bytes come in one at a time, are
//! gathered into lines, and each completed line runs the command it names.

pub mod sink;
pub mod text;
pub mod registry;
pub mod harness;
pub mod laws;

pub use harness::Harness;
pub use registry::{Command, Registry};
pub use sink::{Sink, StdoutSink};
