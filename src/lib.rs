//! Symbolication of code addresses in a WebAssembly module that is fetched in
//! chunks from its host: a seekable reader over the host's fetch primitive, the
//! rules that locate the code section and pick each debug section's bytes, the
//! swappable lookup context, and the choice of the frame that a lookup reports.
pub mod error;
pub mod reader;
pub mod section;
pub mod frame;
pub mod context;
pub mod fibonacci;
