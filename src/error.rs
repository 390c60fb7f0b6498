use vstd::prelude::*;

verus! {

/// Why the function table could not be built. Each step of the load sequence
/// fails with its own variant.
#[derive(Clone, Copy, Debug, PartialEq, Eq, Structural)]
pub enum InitError {
    /// The platform reported no path for the running executable.
    ExecutableUnknown,
    /// The executable's path has no parent directory.
    NoParentDirectory,
    /// Writing the dependency file at this position of the platform's list failed.
    UnpackFailed { index: usize },
    /// The platform's dynamic loader rejected the primary library.
    LoadFailed,
    /// The entry point at this position of the symbol list is not exported.
    MissingSymbol { index: usize },
}

impl InitError {
    /// A short description of the failed step.
    pub fn message(&self) -> (r: &'static str)
        ensures
            r@ == error_message(*self),
    {
        match self {
            InitError::ExecutableUnknown => "current exe has no current dir (?!)",
            InitError::NoParentDirectory => "current exe has no parent (?!)",
            InitError::UnpackFailed { .. } => "could not unpack DLL",
            InitError::LoadFailed => "could not initialize library",
            InitError::MissingSymbol { .. } => "missing function",
        }
    }
}

/// The description that `InitError::message` gives for each kind of failure.
pub open spec fn error_message(e: InitError) -> Seq<char> {
    match e {
        InitError::ExecutableUnknown => "current exe has no current dir (?!)"@,
        InitError::NoParentDirectory => "current exe has no parent (?!)"@,
        InitError::UnpackFailed { .. } => "could not unpack DLL"@,
        InitError::LoadFailed => "could not initialize library"@,
        InitError::MissingSymbol { .. } => "missing function"@,
    }
}

} // verus!
