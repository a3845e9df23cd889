//! The byte-file loader's decisions: why a full-file read failed, the
//! completeness check on what was read, and the diagnostic that wraps every
//! failure with the originating file path. The file accesses themselves are
//! performed outside the library, which is handed their plain results.

use vstd::prelude::*;
use vstd::string::StringExecFns;

verus! {

/// Why reading a file fully into memory failed.
#[derive(Clone, Copy, Debug, PartialEq, Eq, Structural)]
pub enum FileReadError {
    /// The path could not be opened.
    FileNotFound,
    /// The file's size could not be determined.
    MetadataUnavailable,
    /// Fewer bytes were read than the file's size called for.
    ReadTruncated,
}

/// The cause text of each failure.
pub open spec fn spec_cause(e: FileReadError) -> Seq<char> {
    match e {
        FileReadError::FileNotFound => "file not found"@,
        FileReadError::MetadataUnavailable => "unable to read metadata"@,
        FileReadError::ReadTruncated => "buffer overflow"@,
    }
}

impl FileReadError {
    /// The cause of this failure.
    pub fn cause(&self) -> (text: &'static str)
        ensures
            text@ == spec_cause(*self),
    {
        match self {
            FileReadError::FileNotFound => "file not found",
            FileReadError::MetadataUnavailable => "unable to read metadata",
            FileReadError::ReadTruncated => "buffer overflow",
        }
    }

    /// The full diagnostic for a failed read: the originating file path,
    /// then the cause. A missing or unreadable file is a fatal startup
    /// condition, so the path must be named for the operator.
    pub fn describe(&self, path: &str) -> (text: String)
        ensures
            text@ == "while reading file "@ + path@ + ": "@ + spec_cause(*self),
    {
        String::from_str("while reading file ").concat(path).concat(": ").concat(self.cause())
    }
}

/// Decide whether a full-file read completed: a read that returned fewer
/// bytes than the file's length is truncated; one that returned them all is
/// complete.
pub fn classify_read(expected_len: usize, read_len: usize) -> (complete: Result<
    (),
    FileReadError,
>)
    ensures
        complete is Ok <==> read_len >= expected_len,
        complete is Err ==> complete->Err_0 == FileReadError::ReadTruncated,
{
    if read_len >= expected_len {
        Ok(())
    } else {
        Err(FileReadError::ReadTruncated)
    }
}

} // verus!
