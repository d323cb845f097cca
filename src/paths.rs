//! The fixed names of the container and of the files kept in it, and the
//! paths derived from a container or a local data directory.

use vstd::prelude::*;

verus! {

/// The identifier under which the platform knows the application's container.
pub const CONTAINER_ID: &'static str = "iCloud.app.biblemarker";

/// The container's directory name on disk: the identifier with `~` for `.`.
/// Every path inside the container holds it.
pub const CONTAINER_DIR_NAME: &'static str = "iCloud~app~biblemarker";

/// Where the cloud daemon keeps containers, relative to the home directory.
pub const MOBILE_DOCUMENTS: &'static str = "/Library/Mobile Documents/";

/// The container's documents directory, relative to the container.
pub const DOCUMENTS_SUFFIX: &'static str = "/Documents";

/// The folder for synced application files, relative to the container.
pub const SYNC_SUFFIX: &'static str = "/Documents/sync";

/// The database's primary file, relative to a directory.
pub const DATABASE_SUFFIX: &'static str = "/biblemarker.db";

/// The write-ahead log beside a primary database file.
pub const WAL_SUFFIX: &'static str = "-wal";

/// The shared-memory index beside a primary database file.
pub const SHM_SUFFIX: &'static str = "-shm";

pub open spec fn fallback_path_of(home: Seq<char>) -> Seq<char> {
    home + MOBILE_DOCUMENTS@ + CONTAINER_DIR_NAME@
}

pub open spec fn documents_dir_of(container: Seq<char>) -> Seq<char> {
    container + DOCUMENTS_SUFFIX@
}

pub open spec fn legacy_database_of(container: Seq<char>) -> Seq<char> {
    container + DOCUMENTS_SUFFIX@ + DATABASE_SUFFIX@
}

pub open spec fn sync_folder_of(container: Seq<char>) -> Seq<char> {
    container + SYNC_SUFFIX@
}

pub open spec fn local_database_of(data_dir: Seq<char>) -> Seq<char> {
    data_dir + DATABASE_SUFFIX@
}

/// The local database's files: primary, write-ahead log, shared-memory index.
pub open spec fn local_files_of(data_dir: Seq<char>) -> Seq<Seq<char>> {
    seq![
        local_database_of(data_dir),
        local_database_of(data_dir) + WAL_SUFFIX@,
        local_database_of(data_dir) + SHM_SUFFIX@,
    ]
}

/// The on-disk location of the container that the cloud daemon uses, under
/// the home directory `home`.
pub fn fallback_container_path(home: &str) -> (r: String)
    ensures
        r@ == fallback_path_of(home@),
{
    let mut s = String::from_str(home);
    s.append(MOBILE_DOCUMENTS);
    s.append(CONTAINER_DIR_NAME);
    s
}

/// The container's documents directory.
pub fn documents_dir(container: &str) -> (r: String)
    ensures
        r@ == documents_dir_of(container@),
{
    let mut s = String::from_str(container);
    s.append(DOCUMENTS_SUFFIX);
    s
}

/// The legacy database file inside the container.
pub fn legacy_database_path(container: &str) -> (r: String)
    ensures
        r@ == legacy_database_of(container@),
{
    let mut s = String::from_str(container);
    s.append(DOCUMENTS_SUFFIX);
    s.append(DATABASE_SUFFIX);
    s
}

/// The folder for synced application files inside the container.
pub fn sync_folder_path(container: &str) -> (r: String)
    ensures
        r@ == sync_folder_of(container@),
{
    let mut s = String::from_str(container);
    s.append(SYNC_SUFFIX);
    s
}

/// The local database's primary file under the local data directory.
pub fn local_database_path(data_dir: &str) -> (r: String)
    ensures
        r@ == local_database_of(data_dir@),
{
    let mut s = String::from_str(data_dir);
    s.append(DATABASE_SUFFIX);
    s
}

/// All files of the local database: the primary file, then its write-ahead
/// log, then its shared-memory index.
pub fn local_database_files(data_dir: &str) -> (r: Vec<String>)
    ensures
        r@.len() == 3,
        forall|i: int| 0 <= i < 3 ==> #[trigger] r@[i]@ == local_files_of(data_dir@)[i],
{
    let primary = local_database_path(data_dir);
    let mut wal = primary.clone();
    wal.append(WAL_SUFFIX);
    let mut shm = primary.clone();
    shm.append(SHM_SUFFIX);
    let mut files: Vec<String> = Vec::new();
    files.push(primary);
    files.push(wal);
    files.push(shm);
    files
}

} // verus!
