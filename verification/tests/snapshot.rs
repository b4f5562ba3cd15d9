use kcl_requests::errors::LspError;
use kcl_requests::snapshot::{
    entry_metadata, try_get_db, verify_db, verify_request_path, verify_request_version,
    verify_vfs, AnalysisDatabase, DatabaseTable, PathStatus, VersionTable,
};
use ra_ap_vfs::{Vfs, VfsPath};
use std::collections::HashMap;
use std::sync::Arc;

fn text(s: &str) -> String {
    s.to_string()
}

fn files() -> Vfs {
    let mut vfs = Vfs::default();
    vfs.set_file_contents(VfsPath::new_real_path(text("/kcl/other.k")), Some(b"b = 2".to_vec()));
    vfs.set_file_contents(VfsPath::new_real_path(text("/kcl/main.k")), Some(b"a = 1".to_vec()));
    vfs.set_file_contents(VfsPath::new_real_path(text("/kcl/gone.k")), Some(b"c = 3".to_vec()));
    vfs.set_file_contents(VfsPath::new_real_path(text("/kcl/gone.k")), None);
    vfs
}

fn database(version: i32) -> Option<Arc<AnalysisDatabase<&'static str>>> {
    Some(Arc::new(AnalysisDatabase { analysis: "scopes", version }))
}

#[test]
fn the_file_system_tells_which_files_there_are() {
    let vfs = files();
    assert!(verify_vfs(&vfs, &text("/kcl/main.k")));
    assert!(verify_vfs(&vfs, &text("/kcl/sub/../main.k")));
    assert!(!verify_vfs(&vfs, &text("/kcl/missing.k")));
    assert!(!verify_vfs(&vfs, &text("/kcl/gone.k")));
    assert!(!verify_vfs(&vfs, &text("kcl/main.k")));
    assert!(!verify_vfs(&vfs, &text("")));
}

#[test]
fn a_virtual_file_is_not_found_by_a_real_path() {
    let mut vfs = Vfs::default();
    vfs.set_file_contents(VfsPath::new_virtual_path(text("/kcl/main.k")), Some(Vec::new()));
    assert!(!verify_vfs(&vfs, &text("/kcl/main.k")));
}

#[test]
fn a_path_is_known_if_both_tables_have_it() {
    let vfs = files();
    let mut db: DatabaseTable<&str> = DatabaseTable::new();
    let main = text("/kcl/main.k");
    assert!(!verify_db(&vfs, &db, &main));
    assert_eq!(verify_request_path(&vfs, &db, &main), PathStatus::NotInDb);
    // The identifier of the second file that was set.
    db.insert(1, None);
    assert!(verify_db(&vfs, &db, &main));
    assert_eq!(verify_request_path(&vfs, &db, &main), PathStatus::Known);
    assert_eq!(verify_request_path(&vfs, &db, &text("/kcl/other.k")), PathStatus::NotInDb);
    assert_eq!(verify_request_path(&vfs, &db, &text("/kcl/gone.k")), PathStatus::NotInVfs);
}

#[test]
fn unknown_paths_have_a_message() {
    let path = text("/kcl/main.k");
    assert_eq!(PathStatus::Known.message(&path), None);
    assert_eq!(
        PathStatus::NotInVfs.message(&path),
        Some(text("Vfs not contains: /kcl/main.k, request failed"))
    );
    assert_eq!(
        PathStatus::NotInDb.message(&path),
        Some(text("LSP AnalysisDatabase not contains: /kcl/main.k, request failed"))
    );
}

#[test]
fn an_entry_tells_how_the_compilation_goes() {
    let vfs = files();
    let path = text("/kcl/main.k");
    let mut db: DatabaseTable<&str> = DatabaseTable::new();
    assert_eq!(
        try_get_db(Some(&vfs), Some(&db), &path),
        Err(LspError::AnalysisDatabaseNotFound(path.clone()))
    );
    db.insert(1, None);
    assert_eq!(try_get_db(Some(&vfs), Some(&db), &path), Ok(None));
    db.insert(1, database(4));
    db.insert(0, database(7));
    assert_eq!(try_get_db(Some(&vfs), Some(&db), &path), Ok(database(4)));
    let missing = text("/kcl/missing.k");
    assert_eq!(
        try_get_db(Some(&vfs), Some(&db), &missing),
        Err(LspError::FileIdNotFound(missing))
    );
}

#[test]
fn a_busy_table_gives_nothing_yet() {
    let vfs = files();
    let db: DatabaseTable<&str> = DatabaseTable::new();
    let path = text("/kcl/main.k");
    let missing = text("/kcl/missing.k");
    assert_eq!(try_get_db::<&str>(None, None, &path), Ok(None));
    assert_eq!(try_get_db(None, Some(&db), &missing), Ok(None));
    assert_eq!(try_get_db::<&str>(Some(&vfs), None, &path), Ok(None));
    assert_eq!(
        try_get_db::<&str>(Some(&vfs), None, &missing),
        Err(LspError::FileIdNotFound(missing))
    );
}

#[test]
fn the_database_is_shared_not_copied() {
    let vfs = files();
    let mut db: DatabaseTable<&str> = DatabaseTable::new();
    let shared = Arc::new(AnalysisDatabase { analysis: "scopes", version: 1 });
    db.insert(1, Some(Arc::clone(&shared)));
    match try_get_db(Some(&vfs), Some(&db), &text("/kcl/main.k")) {
        Ok(Some(found)) => assert!(Arc::ptr_eq(&found, &shared)),
        _ => panic!("no database"),
    }
}

#[test]
fn the_open_version_is_compared() {
    let vfs = files();
    let path = text("/kcl/main.k");
    let mut opened_files = VersionTable::new();
    assert_eq!(
        verify_request_version(&vfs, &opened_files, 3, &path),
        Err(LspError::DocumentVersionNotFound(path.clone()))
    );
    opened_files.insert(1, 3);
    assert_eq!(verify_request_version(&vfs, &opened_files, 3, &path), Ok(true));
    assert_eq!(verify_request_version(&vfs, &opened_files, 2, &path), Ok(false));
    let missing = text("/kcl/missing.k");
    assert_eq!(
        verify_request_version(&vfs, &opened_files, 3, &missing),
        Err(LspError::FileIdNotFound(missing))
    );
}

#[test]
fn the_metadata_is_the_last_part_of_a_cached_entry() {
    let mut cache = HashMap::new();
    let with = ((vec![text("main.k")], Some(1u8), Some(Arc::new("meta"))), 9u64);
    cache.insert(text("main.k"), with);
    cache.insert(text("other.k"), ((Vec::new(), None, None), 9));
    assert_eq!(entry_metadata(&cache, &text("main.k")), Some(Arc::new("meta")));
    assert_eq!(entry_metadata(&cache, &text("other.k")), None);
    assert_eq!(entry_metadata(&cache, &text("Main.k")), None);
    assert_eq!(entry_metadata(&cache, &text("")), None);
}
