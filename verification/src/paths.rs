use vstd::prelude::*;
use vstd::string::*;

verus! {

/// The fixed name of the directory, under the application-data directory,
/// that holds every stored blob.
pub open spec fn blobs_dir_name() -> Seq<char> {
    "audio-files"@
}

/// The fixed file name of the JSON catalog, directly under the
/// application-data directory.
pub open spec fn catalog_file_name() -> Seq<char> {
    "metadata.json"@
}

/// A child path under a directory: the directory, a separator, the child's
/// name.
pub open spec fn joined(dir: Seq<char>, name: Seq<char>) -> Seq<char> {
    dir + "/"@ + name
}

/// The file name a blob is stored under: the file identifier and the display
/// name, joined by a single dash. Callers must pick identifiers that keep
/// distinct keys from colliding after this rule; the store itself checks
/// nothing.
pub open spec fn blob_file_name_spec(file_id: Seq<char>, file_name: Seq<char>) -> Seq<char> {
    file_id + "-"@ + file_name
}

/// The full path of a blob under a storage root.
pub open spec fn blob_path_spec(root: Seq<char>, file_id: Seq<char>, file_name: Seq<char>) -> Seq<char> {
    joined(root, blob_file_name_spec(file_id, file_name))
}

/// Joins a child name under a directory path.
pub fn join_under(dir: &str, name: &str) -> (r: String)
    ensures
        r@ == joined(dir@, name@),
{
    let mut s = dir.to_owned();
    s.append("/");
    s.append(name);
    s
}

/// The storage root: the blobs directory under the application-data
/// directory.
pub fn storage_dir_path(app_data_dir: &str) -> (r: String)
    ensures
        r@ == joined(app_data_dir@, blobs_dir_name()),
{
    join_under(app_data_dir, "audio-files")
}

/// The catalog file's path, directly under the application-data directory.
pub fn catalog_file_path(app_data_dir: &str) -> (r: String)
    ensures
        r@ == joined(app_data_dir@, catalog_file_name()),
{
    join_under(app_data_dir, "metadata.json")
}

/// The file name a blob is stored under, derived from its key alone.
pub fn blob_file_name(file_id: &str, file_name: &str) -> (r: String)
    ensures
        r@ == blob_file_name_spec(file_id@, file_name@),
{
    let mut s = file_id.to_owned();
    s.append("-");
    s.append(file_name);
    s
}

/// The full path of a blob under a storage root, derived without touching
/// any file.
pub fn resolve_blob_path(root: &str, file_id: &str, file_name: &str) -> (r: String)
    ensures
        r@ == blob_path_spec(root@, file_id@, file_name@),
{
    let name = blob_file_name(file_id, file_name);
    join_under(root, name.as_str())
}

/// Path resolution is pure and stable: any two paths resolved from the same
/// key under the same root are the same path.
pub proof fn lemma_resolve_path_stable(
    root: Seq<char>,
    file_id: Seq<char>,
    file_name: Seq<char>,
    p1: Seq<char>,
    p2: Seq<char>,
)
    requires
        p1 == blob_path_spec(root, file_id, file_name),
        p2 == blob_path_spec(root, file_id, file_name),
    ensures
        p1 == p2,
{
}

} // verus!
