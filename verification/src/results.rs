use vstd::prelude::*;

verus! {

/// The outcome reported to the host for a blob write: on success the
/// absolute path the blob was stored at, on failure the underlying message.
pub struct FileResult {
    pub success: bool,
    pub path: Option<String>,
    pub error: Option<String>,
}

/// The outcome reported to the host for a blob read: on success the blob's
/// full content, on failure the underlying message.
pub struct LoadFileResult {
    pub success: bool,
    pub buffer: Option<Vec<u8>>,
    pub error: Option<String>,
}

/// The outcome reported to the host for an operation with no payload:
/// a blob delete or a catalog save.
pub struct MetadataResult {
    pub success: bool,
    pub error: Option<String>,
}

/// Shapes a blob write's outcome: success carries the path written to and
/// no error; failure carries the message and no path.
pub fn save_file_result(path: String, outcome: Result<(), String>) -> (r: FileResult)
    ensures
        outcome is Ok ==> r.success && r.path == Some(path) && r.error is None,
        outcome matches Err(e) ==> !r.success && r.path is None && r.error == Some(e),
{
    match outcome {
        Ok(()) => FileResult { success: true, path: Some(path), error: None },
        Err(e) => FileResult { success: false, path: None, error: Some(e) },
    }
}

/// Shapes a blob read's outcome: success carries the full content and no
/// error; failure carries the message and no buffer.
pub fn load_file_result(outcome: Result<Vec<u8>, String>) -> (r: LoadFileResult)
    ensures
        outcome matches Ok(b) ==> r.success && r.buffer == Some(b) && r.error is None,
        outcome matches Err(e) ==> !r.success && r.buffer is None && r.error == Some(e),
{
    match outcome {
        Ok(b) => LoadFileResult { success: true, buffer: Some(b), error: None },
        Err(e) => LoadFileResult { success: false, buffer: None, error: Some(e) },
    }
}

/// Shapes a payload-free outcome: success iff no error was reported.
pub fn op_result(outcome: Result<(), String>) -> (r: MetadataResult)
    ensures
        outcome is Ok ==> r.success && r.error is None,
        outcome matches Err(e) ==> !r.success && r.error == Some(e),
{
    match outcome {
        Ok(()) => MetadataResult { success: true, error: None },
        Err(e) => MetadataResult { success: false, error: Some(e) },
    }
}

} // verus!
