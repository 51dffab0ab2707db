//! The two classes of failure of a load: errors that the caller can report and
//! recover from, and structural violations of the image format.

use vstd::prelude::*;

verus! {

/// Why a string was not accepted as the hex form of a host-data value.
#[derive(Debug, Clone, Copy, PartialEq, Eq, Structural)]
pub enum HexError {
    /// The byte at `index` is no hex digit; `c` is that byte as a character.
    InvalidHexCharacter { c: char, index: usize },
    /// The string has an odd number of bytes.
    OddLength,
    /// The string does not decode to the expected number of bytes.
    InvalidStringLength,
}

/// A failure that is reported to the caller; the load is aborted.
#[derive(Debug, Clone, Copy, PartialEq, Eq, Structural)]
pub enum Error {
    /// The command line holds a NUL byte, the first of them at `nul_position`.
    InvalidCommandLine { nul_position: usize },
    /// The image file could not be read.
    Igvm,
    /// The image file could not be decoded.
    InvalidIgvmFile,
    /// The guest's RAM layout could not be obtained.
    InvalidGuestMemmap,
    /// The page-import sink refused an action.
    Loader,
    /// A parameter does not fit into its parameter area.
    ParameterTooLarge,
    /// The hypervisor failed to import a group of isolated pages.
    ImportIsolatedPages,
    /// The hypervisor failed to complete the isolated import.
    CompleteIsolatedImport,
    /// The host data is no hex string of 32 bytes.
    FailedToDecodeHostData(HexError),
    /// The isolation-control register of a virtual processor could not be written.
    SetVmsa,
    /// A memory region could not be mapped.
    MemoryManager,
}

/// A violation of the image format's structure: the image is corrupt or
/// hostile, and nothing loaded from it can be trusted.
#[derive(Debug, Clone, Copy, PartialEq, Eq, Structural)]
pub enum Violation {
    /// A parameter area was declared twice.
    DuplicateParameterArea,
    /// A directive names a parameter area that was never declared.
    UnknownParameterArea,
    /// A directive names a parameter area that was already inserted.
    ParameterAreaInserted,
    /// The directive is of a kind that the loader does not implement.
    UnsupportedDirective,
    /// The page data is of a type that the loader does not implement.
    UnsupportedPageDataType,
    /// The directive is not meant for the platform's compatibility mask.
    CompatibilityMaskMismatch,
    /// The page data is neither empty nor exactly one page.
    UnexpectedPageDataSize,
    /// The VP context does not start at a page boundary.
    UnalignedVpContext,
    /// The VP context does not fit into one page.
    OversizedVpContext,
    /// A RAM range is not made of whole pages.
    UnalignedRamRange,
}

/// Either class of failure.
#[derive(Debug, Clone, Copy, PartialEq, Eq, Structural)]
pub enum Failure {
    Error(Error),
    Fatal(Violation),
}

impl Error {
    /// The text of the error's message.
    pub open spec fn message_text(self) -> Seq<char> {
        match self {
            Error::InvalidCommandLine { .. } => "command line is not a valid C string"@,
            Error::Igvm => "failed to read igvm file"@,
            Error::InvalidIgvmFile => "invalid igvm file"@,
            Error::InvalidGuestMemmap => "invalid guest memory map"@,
            Error::Loader => "loader error"@,
            Error::ParameterTooLarge => "parameter too large for parameter area"@,
            Error::ImportIsolatedPages => "Error importing isolated pages"@,
            Error::CompleteIsolatedImport => "Error completing importing isolated pages"@,
            Error::FailedToDecodeHostData(_) => "Error decoding host data"@,
            Error::SetVmsa => "Error applying VMSA to vCPU registers"@,
            Error::MemoryManager => "Error mapping mem regions"@,
        }
    }

    /// A description of the error for a log or a user.
    pub fn message(&self) -> (text: &'static str)
        ensures
            text@ == self.message_text(),
    {
        match self {
            Error::InvalidCommandLine { .. } => "command line is not a valid C string",
            Error::Igvm => "failed to read igvm file",
            Error::InvalidIgvmFile => "invalid igvm file",
            Error::InvalidGuestMemmap => "invalid guest memory map",
            Error::Loader => "loader error",
            Error::ParameterTooLarge => "parameter too large for parameter area",
            Error::ImportIsolatedPages => "Error importing isolated pages",
            Error::CompleteIsolatedImport => "Error completing importing isolated pages",
            Error::FailedToDecodeHostData(_) => "Error decoding host data",
            Error::SetVmsa => "Error applying VMSA to vCPU registers",
            Error::MemoryManager => "Error mapping mem regions",
        }
    }
}

} // verus!
