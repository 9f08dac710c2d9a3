//! The conditions that marshalling a parameter can end in.

use vstd::prelude::*;

verus! {

/// What went wrong.
#[derive(Clone, Copy, Debug, PartialEq, Eq, Structural)]
pub enum ErrorKind {
    /// A slot was asked for a shape that its tag does not select.
    BadParameters,
    /// A length does not fit the 32-bit size field of a memory reference.
    TargetDead,
}

impl ErrorKind {
    /// The status code that stands for this kind at the boundary.
    pub open spec fn code(self) -> u32 {
        match self {
            ErrorKind::BadParameters => 0xffff_0006,
            ErrorKind::TargetDead => 0xffff_3024,
        }
    }

    /// Computes [`ErrorKind::code`].
    pub fn raw_code(self) -> (code: u32)
        ensures
            code == self.code(),
    {
        match self {
            ErrorKind::BadParameters => 0xffff_0006,
            ErrorKind::TargetDead => 0xffff_3024,
        }
    }
}

/// An outcome other than success.  It carries its kind and nothing else.
#[derive(Clone, Copy, Debug, PartialEq, Eq, Structural)]
pub struct Error {
    pub kind: ErrorKind,
}

impl Error {
    pub fn new(kind: ErrorKind) -> (error: Error)
        ensures
            error.kind == kind,
    {
        Error { kind }
    }

    pub fn kind(&self) -> (kind: ErrorKind)
        ensures
            kind == self.kind,
    {
        self.kind
    }

    /// The status code of the error's kind.
    pub fn raw_code(&self) -> (code: u32)
        ensures
            code == self.kind.code(),
    {
        self.kind.raw_code()
    }
}

impl From<ErrorKind> for Error {
    fn from(kind: ErrorKind) -> (error: Error) {
        Error { kind }
    }
}

impl vstd::std_specs::convert::FromSpecImpl<ErrorKind> for Error {
    open spec fn obeys_from_spec() -> bool {
        true
    }

    open spec fn from_spec(kind: ErrorKind) -> Error {
        Error { kind }
    }
}

} // verus!
