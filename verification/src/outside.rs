//! What the library believes of code that is not verified here.

use lsp_server::RequestId;
use ra_ap_vfs::{AbsPathBuf, FileId, Vfs, VfsPath};
use std::collections::HashMap;
use std::string::FromUtf8Error;
use std::sync::Arc;
use vstd::prelude::*;
use vstd::utf8::{encode_utf8, valid_utf8};

verus! {

/// The virtual file system of `ra_ap_vfs`. What it holds is spoken of through
/// [`vfs_ids`] and [`vfs_contents`].
#[verifier::external_type_specification]
#[verifier::external_body]
pub struct ExVfs(Vfs);

/// The identifier of a request, of `lsp_server`. It is only carried and looked up.
#[verifier::external_type_specification]
#[verifier::external_body]
pub struct ExRequestId(RequestId);

/// The error of `String::from_utf8`. It is only carried.
#[verifier::external_type_specification]
#[verifier::external_body]
pub struct ExFromUtf8Error(FromUtf8Error);

/// The files that a file system holds: for the text of every absolute path under
/// which a file that is not deleted can be looked up, the identifier of that file.
pub uninterp spec fn vfs_ids(vfs: Vfs) -> Map<Seq<char>, u32>;

/// The contents of the files that a file system holds and that are not deleted,
/// by their identifiers.
pub uninterp spec fn vfs_contents(vfs: Vfs) -> Map<u32, Seq<u8>>;

/// How the file system shows an absolute path that is given by its text.
pub uninterp spec fn vfs_path_text(path: Seq<char>) -> Seq<char>;

/// The error of bytes that are not UTF-8.
pub uninterp spec fn utf8_error(bytes: Seq<u8>) -> FromUtf8Error;

/// `VfsPath::from`, on the absolute path that the text spells, and the `Display` of
/// what it gives: the path under which the file system keeps the file, with `.` and
/// `..` resolved. For the platform that the library is built for, it depends on the
/// text alone. Text that is no absolute path is shown as it is.
#[verifier::external_body]
pub(crate) fn vfs_path(path: &str) -> (shown: String)
    ensures
        shown@ == vfs_path_text(path@),
{
    match AbsPathBuf::try_from(path) {
        Ok(path) => VfsPath::from(path).to_string(),
        Err(path) => path.display().to_string(),
    }
}

/// `Vfs::file_id`, on the path that the text spells. It gives the identifier of
/// the file at that path, and nothing if there is none or if it is deleted; an
/// identifier that it gives belongs to a file whose contents are there. Text that
/// is no absolute path finds nothing: apart from absolute paths the file system has
/// only virtual ones, which are never looked up here.
#[verifier::external_body]
pub(crate) fn file_id(vfs: &Vfs, path: &str) -> (id: Option<u32>)
    ensures
        id is Some <==> vfs_ids(*vfs).contains_key(path@),
        id is Some ==> id->0 == vfs_ids(*vfs)[path@],
        id is Some ==> vfs_contents(*vfs).contains_key(id->0),
{
    let path = AbsPathBuf::try_from(path).ok()?;
    vfs.file_id(&VfsPath::from(path)).map(|id| id.0)
}

/// `Vfs::file_contents`: the bytes of the file with that identifier. It panics on
/// an identifier that is unknown or whose file is deleted.
#[verifier::external_body]
pub(crate) fn file_contents(vfs: &Vfs, id: u32) -> (contents: Vec<u8>)
    requires
        vfs_contents(*vfs).contains_key(id),
    ensures
        contents@ == vfs_contents(*vfs)[id],
{
    vfs.file_contents(FileId(id)).to_vec()
}

/// `String::from_utf8`: the text that the bytes encode, if they are valid UTF-8; if
/// not, the error that goes with the bytes.
pub assume_specification[ String::from_utf8 ](vec: Vec<u8>) -> (text: Result<String, FromUtf8Error>)
    ensures
        text is Ok <==> valid_utf8(vec@),
        text is Ok ==> encode_utf8(text->Ok_0@) == vec@,
        text is Err ==> text->Err_0 == utf8_error(vec@),
;

/// `Arc::clone`: one more pointer to the same value.
#[verifier::external_body]
pub(crate) fn share<T>(value: &Arc<T>) -> (shared: Arc<T>)
    ensures
        shared == *value,
{
    Arc::clone(value)
}

/// `HashMap::contains_key` on a table of request identifiers: whether the table
/// has an entry for that identifier. The identifiers' `Eq` and `Hash` compare and
/// hash all that an identifier holds.
#[verifier::external_body]
pub(crate) fn has_entry(table: &HashMap<RequestId, i32>, id: &RequestId) -> (found: bool)
    ensures
        found == table@.contains_key(*id),
{
    table.contains_key(id)
}

/// `HashMap::get` on a cache by file: the value that the cache has for that file, if
/// it has one. Files are the same if their texts are.
#[verifier::external_body]
pub(crate) fn cached<'a, N>(cache: &'a HashMap<String, N>, file: &String) -> (entry: Option<&'a N>)
    ensures
        entry is Some <==> cache@.contains_key(*file),
        entry is Some ==> *entry->0 == cache@[*file],
{
    cache.get(file)
}

} // verus!
