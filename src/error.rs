use vstd::prelude::*;

verus! {

/// The four ways in which initialization or resolution can fail.
#[derive(Clone, Copy, Debug, PartialEq, Eq, Structural)]
pub enum ErrorKind {
    /// The container or one of its debug sections is malformed.
    ParseError,
    /// The code section, the lookup context, or a frame is missing.
    NotFound,
    /// A compressed debug section, or debug data kept outside the module.
    Unsupported,
    /// The debug-info context could not be built.
    Internal,
}

/// A failure, with the message that is reported to the host.
#[derive(Debug)]
pub struct Error {
    pub kind: ErrorKind,
    pub message: String,
}

impl Error {
    pub fn new(kind: ErrorKind, message: &str) -> (r: Error)
        ensures
            r.kind == kind,
            r.message@ == message@,
    {
        Error { kind, message: message.to_owned() }
    }

    /// The text handed to the host's error channel.
    pub fn message(&self) -> (r: &str)
        ensures
            r@ == self.message@,
    {
        self.message.as_str()
    }
}

} // verus!
