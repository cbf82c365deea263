//! Error taxonomy for the synchronizer.
//!
//! Every failure aborts the whole run; the variants name which stage failed.

use vstd::prelude::*;

verus! {

/// What went wrong during a run. Each variant corresponds to one failure
/// point of the pipeline; all are fatal (fail-fast, no per-file recovery).
#[derive(Clone, Copy, Debug, PartialEq, Eq, Structural)]
pub enum Error {
    /// Enumeration I/O failure while reading a directory entry.
    DirectoryRead,
    /// A file path could not be expressed relative to the root, or has no
    /// parent segment under the root.
    PathRelation,
    /// The secret key could not be appended to the base URI.
    UriConstruction,
    /// Network / TLS / HTTP-client-level failure during upload.
    UploadTransport,
    /// A path is not representable as valid text.
    PathEncoding,
    /// File content could not be read.
    FileRead,
    /// YAML-to-JSON re-encoding failed.
    PayloadSerialization,
    /// File content could not be parsed as the format its extension names.
    PayloadParse,
}

impl Error {
    /// A single-line, human-readable description of the failure.
    pub fn describe(&self) -> (r: String)
        ensures
            r@ == match self {
                Error::DirectoryRead => "failed to read a directory entry"@,
                Error::PathRelation => "file has no parent directory under the root"@,
                Error::UriConstruction => "could not append the secret key to the base URI"@,
                Error::UploadTransport => "upload failed at the transport level"@,
                Error::PathEncoding => "path is not valid text"@,
                Error::FileRead => "failed to read file content"@,
                Error::PayloadSerialization => "failed to re-encode YAML content as JSON"@,
                Error::PayloadParse => "file content does not parse as its extension's format"@,
            },
    {
        match self {
            Error::DirectoryRead => String::from_str("failed to read a directory entry"),
            Error::PathRelation => String::from_str(
                "file has no parent directory under the root",
            ),
            Error::UriConstruction => String::from_str(
                "could not append the secret key to the base URI",
            ),
            Error::UploadTransport => String::from_str("upload failed at the transport level"),
            Error::PathEncoding => String::from_str("path is not valid text"),
            Error::FileRead => String::from_str("failed to read file content"),
            Error::PayloadSerialization => String::from_str(
                "failed to re-encode YAML content as JSON",
            ),
            Error::PayloadParse => String::from_str(
                "file content does not parse as its extension's format",
            ),
        }
    }
}

} // verus!
