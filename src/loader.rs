use vstd::prelude::*;
use libloading_mini::Library;
use crate::error::InitError;

verus! {

#[verifier::external_type_specification]
#[verifier::external_body]
pub struct ExLibrary(Library);

/// Relies on libloading_mini::Library::new: opens the shared library at `path`
/// with the platform's dynamic loader, or gives `None` when the loader rejects it.
#[verifier::external_body]
fn open_library(path: &str) -> (r: Option<Library>)
{
    Library::new(path)
}

/// Relies on libloading_mini::Library::get: the address of the export called
/// `name`, or `None` when the library has no such export.
#[verifier::external_body]
pub(crate) fn find_symbol(library: &Library, name: &str) -> (r: Option<usize>)
{
    library.get(name.as_bytes()).map(|p| p as usize)
}

/// Opens the shared library at `path`. The only failure is the loader's
/// rejection of the file.
pub fn load_library(path: &str) -> (r: Result<Library, InitError>)
    ensures
        r matches Err(e) ==> e == InitError::LoadFailed,
{
    match open_library(path) {
        Some(library) => Ok(library),
        None => Err(InitError::LoadFailed),
    }
}

} // verus!
