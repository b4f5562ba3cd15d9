//! What the server's tables say of one document.
//!
//! The tables are shared between threads, behind locks. The functions here take
//! what the locks guard, so each answers for one reading of the tables. A path is
//! given as the file system shows it.

use crate::errors::LspError;
use crate::outside::{cached, file_id, share, vfs_ids};
use ra_ap_vfs::Vfs;
use std::collections::HashMap;
use std::sync::Arc;
use vstd::prelude::*;

verus! {

broadcast use vstd::std_specs::hash::group_hash_axioms;

/// The version of a document, as the editor counts them.
pub type DocumentVersion = i32;

/// The result of compiling a document, and the version that was compiled.
#[derive(Debug, PartialEq, Eq)]
pub struct AnalysisDatabase<A> {
    pub analysis: A,
    pub version: DocumentVersion,
}

/// The analyses by file: no entry where the compilation failed, an entry without
/// a database while it is under way.
pub type DatabaseTable<A> = HashMap<u32, Option<Arc<AnalysisDatabase<A>>>>;

/// The versions of the files that are open in the editor.
pub type VersionTable = HashMap<u32, DocumentVersion>;

/// An entry of the cache of entry points: how the file is compiled, with the metadata
/// last, and since when that holds.
pub type CachedEntry<F, O, M, S> = ((F, O, Option<Arc<M>>), S);

/// What the tables know of a path.
#[derive(Clone, Copy, Debug, PartialEq, Eq, Structural)]
pub enum PathStatus {
    /// The file system has the file and the analyses have an entry for it.
    Known,
    /// The file system does not have the file.
    NotInVfs,
    /// The file system has the file, the analyses have no entry for it.
    NotInDb,
}

/// The file system has a file at `path`.
pub open spec fn in_vfs(vfs: Vfs, path: Seq<char>) -> bool {
    vfs_ids(vfs).contains_key(path)
}

/// The analyses have an entry for the file at `path`.
pub open spec fn in_db<A>(
    vfs: Vfs,
    db: Map<u32, Option<Arc<AnalysisDatabase<A>>>>,
    path: Seq<char>,
) -> bool {
    in_vfs(vfs, path) && db.contains_key(vfs_ids(vfs)[path])
}

/// What the tables know of `path`.
pub open spec fn path_status<A>(
    vfs: Vfs,
    db: Map<u32, Option<Arc<AnalysisDatabase<A>>>>,
    path: Seq<char>,
) -> PathStatus {
    if in_db(vfs, db, path) {
        PathStatus::Known
    } else if in_vfs(vfs, path) {
        PathStatus::NotInDb
    } else {
        PathStatus::NotInVfs
    }
}

/// The analysis of `path`, if the tables could be read: nothing yet if one of
/// them is busy or the compilation is under way.
pub open spec fn db_of<A>(
    vfs: Option<&Vfs>,
    db: Option<&DatabaseTable<A>>,
    path: String,
) -> Result<Option<Arc<AnalysisDatabase<A>>>, LspError> {
    match vfs {
        None => Ok(None),
        Some(vfs) => if !in_vfs(*vfs, path@) {
            Err(LspError::FileIdNotFound(path))
        } else {
            match db {
                None => Ok(None),
                Some(db) => if in_db(*vfs, db@, path@) {
                    Ok(db@[vfs_ids(*vfs)[path@]])
                } else {
                    Err(LspError::AnalysisDatabaseNotFound(path))
                },
            }
        },
    }
}

/// Whether `version` is the version that is open in the editor.
pub open spec fn version_current(
    vfs: Vfs,
    opened_files: Map<u32, DocumentVersion>,
    version: DocumentVersion,
    path: String,
) -> Result<bool, LspError> {
    if !in_vfs(vfs, path@) {
        Err(LspError::FileIdNotFound(path))
    } else if !opened_files.contains_key(vfs_ids(vfs)[path@]) {
        Err(LspError::DocumentVersionNotFound(path))
    } else {
        Ok(version == opened_files[vfs_ids(vfs)[path@]])
    }
}

/// The entry of a file in the cache of entry points.
pub open spec fn entry_in<N>(cache: Map<String, N>, file: String) -> Option<N> {
    if cache.contains_key(file) {
        Some(cache[file])
    } else {
        None
    }
}

/// The metadata in an entry of the cache; none without an entry.
pub open spec fn metadata_of<F, O, M, S>(entry: Option<CachedEntry<F, O, M, S>>) -> Option<
    Arc<M>,
> {
    match entry {
        Some(entry) => entry.0.2,
        None => None,
    }
}

/// Whether the file system has the file.
pub fn verify_vfs(vfs: &Vfs, path: &String) -> (valid: bool)
    ensures
        valid == in_vfs(*vfs, path@),
{
    file_id(vfs, path.as_str()).is_some()
}

/// Whether the analyses have an entry for a file that the file system has.
pub fn verify_db<A>(vfs: &Vfs, db: &DatabaseTable<A>, path: &String) -> (valid: bool)
    requires
        in_vfs(*vfs, path@),
    ensures
        valid == in_db(*vfs, db@, path@),
{
    match file_id(vfs, path.as_str()) {
        Some(id) => db.get(&id).is_some(),
        None => false,
    }
}

/// What the tables know of a path: the guard against files that are not part of
/// a KCL program.
pub fn verify_request_path<A>(vfs: &Vfs, db: &DatabaseTable<A>, path: &String) -> (status:
    PathStatus)
    ensures
        status == path_status(*vfs, db@, path@),
{
    if !verify_vfs(vfs, path) {
        PathStatus::NotInVfs
    } else if !verify_db(vfs, db, path) {
        PathStatus::NotInDb
    } else {
        PathStatus::Known
    }
}

/// Attempts to get the analysis of a path from what could be read of the tables
/// without waiting; `None` stands for a table that is busy.
///
/// - The entry holds a database: the compilation is completed.
/// - The entry holds none: it is under way, and there is nothing yet.
/// - There is no entry: it failed.
pub fn try_get_db<A>(
    vfs: Option<&Vfs>,
    db: Option<&DatabaseTable<A>>,
    path: &String,
) -> (opened: Result<Option<Arc<AnalysisDatabase<A>>>, LspError>)
    ensures
        opened == db_of(vfs, db, *path),
{
    match vfs {
        Some(vfs) => match file_id(vfs, path.as_str()) {
            Some(id) => match db {
                Some(db) => match db.get(&id) {
                    Some(Some(database)) => Ok(Some(share(database))),
                    Some(None) => Ok(None),
                    None => Err(LspError::AnalysisDatabaseNotFound(path.clone())),
                },
                None => Ok(None),
            },
            None => Err(LspError::FileIdNotFound(path.clone())),
        },
        None => Ok(None),
    }
}

/// Whether an analysis of version `db_version` is of the version that is open in
/// the editor.
pub fn verify_request_version(
    vfs: &Vfs,
    opened_files: &VersionTable,
    db_version: DocumentVersion,
    path: &String,
) -> (current: Result<bool, LspError>)
    ensures
        current == version_current(*vfs, opened_files@, db_version, *path),
{
    match file_id(vfs, path.as_str()) {
        Some(id) => match opened_files.get(&id) {
            Some(version) => Ok(db_version == *version),
            None => Err(LspError::DocumentVersionNotFound(path.clone())),
        },
        None => Err(LspError::FileIdNotFound(path.clone())),
    }
}

/// The metadata of a file, as the cache of entry points has it; none if the file is
/// not there.
pub fn entry_metadata<F, O, M, S>(
    cache: &HashMap<String, CachedEntry<F, O, M, S>>,
    file: &String,
) -> (metadata: Option<Arc<M>>)
    ensures
        metadata == metadata_of(entry_in(cache@, *file)),
{
    match cached(cache, file) {
        Some(entry) => match &entry.0.2 {
            Some(metadata) => Some(share(metadata)),
            None => None,
        },
        None => None,
    }
}

} // verus!
