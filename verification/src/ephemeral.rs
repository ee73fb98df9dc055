//! Ephemeral configuration files: uniquely named temporary files that hold a
//! synthesised configuration text and delete themselves when their handle
//! goes out of scope, on every exit path.

use std::io::Write;
use tempfile::NamedTempFile;
use vstd::prelude::*;

verus! {

/// Owner of the underlying uniquely named temporary file; the file is
/// removed from disk when this value is dropped. Held opaquely: Verus sees
/// nothing of it, so everything known about the file is carried by the
/// plain fields of [`EphemeralConfigFile`].
#[verifier::external_body]
pub struct TempHandle {
    inner: NamedTempFile,
}

/// Relies on `tempfile::NamedTempFile::new`: creates a fresh, uniquely
/// named temporary file that is deleted when the handle is dropped. Aborts
/// the process if the file cannot be created, in line with the crate's
/// fail-fast policy on temp-file failures.
#[verifier::external_body]
fn new_temp_handle() -> TempHandle {
    TempHandle { inner: NamedTempFile::new().unwrap() }
}

/// Relies on `std::io::Write::write_all` through `tempfile::NamedTempFile`'s
/// `Write` impl: writes every byte of `content` to the temporary file.
/// Aborts the process if the write fails.
#[verifier::external_body]
fn write_to_temp(handle: &mut TempHandle, content: &str) {
    handle.inner.write_all(content.as_bytes()).unwrap();
}

/// Relies on `tempfile::NamedTempFile::path` and `std::path::Path::to_str`:
/// returns the temporary file's filesystem path as text. Aborts the process
/// if the path is not valid UTF-8, in line with the crate's fail-fast
/// policy on path-encoding failures.
#[verifier::external_body]
fn temp_handle_path(handle: &TempHandle) -> String {
    handle.inner.path().to_str().unwrap().to_owned()
}

/// An ephemeral configuration file: a uniquely named temporary file
/// together with its recorded path and the exact text written to it. The
/// underlying file is deleted when this value is dropped.
pub struct EphemeralConfigFile {
    /// Keeps the underlying temporary file alive; dropping it deletes the
    /// file.
    pub handle: TempHandle,
    /// The file's filesystem path, recorded at creation.
    pub path: String,
    /// The full text written to the file.
    pub content: String,
}

impl EphemeralConfigFile {
    /// Creates a new uniquely named temporary file holding exactly
    /// `content`, and records its path.
    pub fn create(content: String) -> (r: EphemeralConfigFile)
        ensures
            r.content@ == content@,
    {
        let mut handle = new_temp_handle();
        write_to_temp(&mut handle, content.as_str());
        let path = temp_handle_path(&handle);
        EphemeralConfigFile { handle, path, content }
    }
}

} // verus!
