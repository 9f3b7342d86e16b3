//! Typed errors of the library; the program maps each kind to an exit code.

use vstd::prelude::*;

verus! {

/// What went wrong, in the classes of the sysexits convention.
#[derive(Clone, Copy, Debug, PartialEq, Eq, Structural)]
pub enum ErrorKind {
    /// Bad arguments, wrong directory, nested session, forbidden settings.
    Usage,
    /// A required environment variable is missing.
    Config,
    /// A malformed or inconsistent document.
    Data,
    /// An input/output failure.
    Io,
    /// A required file is missing.
    NoInput,
    /// A directory or a link could not be created.
    CantCreate,
    /// The container runtime or an image is not available.
    Unavailable,
    /// The container runtime printed something unexpected.
    Protocol,
    /// An operating-system call failed.
    OsErr,
    /// An internal invariant did not hold.
    Software,
}

/// An error with its kind and a message for the user.
#[derive(Clone, Debug, PartialEq, Eq)]
pub struct AvatarError {
    pub kind: ErrorKind,
    pub message: String,
}

impl AvatarError {
    pub fn new(kind: ErrorKind, message: String) -> (r: AvatarError)
        ensures
            r.kind == kind,
            r.message == message,
    {
        AvatarError { kind, message }
    }

    pub fn get_kind(&self) -> (r: ErrorKind)
        ensures
            r == self.kind,
    {
        self.kind
    }

    pub fn get_message(&self) -> (r: &String)
        ensures
            r == &self.message,
    {
        &self.message
    }
}

} // verus!
