//! Checks and records for files in the container's sync folder.

use crate::error::CloudError;
use crate::paths::CONTAINER_DIR_NAME;
use crate::text::{contains_seq, contains_str, find_last_char, last_index_of};
use vstd::prelude::*;

verus! {

/// The directory that holds `path`: everything before its last `/`. A path
/// with no `/`, or whose only `/` leads it, has none to create.
pub open spec fn parent_of(path: Seq<char>) -> Option<Seq<char>> {
    let i = last_index_of(path, '/');
    if i > 0 {
        Some(path.subrange(0, i))
    } else {
        None
    }
}

/// A path that the sync folder may be written at: one inside the container.
pub open spec fn inside_container(path: Seq<char>) -> bool {
    contains_seq(path, CONTAINER_DIR_NAME@)
}

/// What a file write needs done before the bytes go out.
#[derive(Debug)]
pub struct WritePlan {
    /// The directory to create, with its ancestors, if it is missing.
    pub parent: Option<String>,
}

/// Accepts a write target inside the container and says which directory
/// must exist for it; rejects any other path before anything is touched.
pub fn check_write_target(path: &str) -> (r: Result<WritePlan, CloudError>)
    ensures
        inside_container(path@) <==> r is Ok,
        r matches Ok(plan) ==> match parent_of(path@) {
            Some(p) => plan.parent matches Some(q) && q@ == p,
            None => plan.parent is None,
        },
        r matches Err(e) ==> e matches CloudError::PathRejected(p) && p@ == path@,
{
    if !contains_str(path, CONTAINER_DIR_NAME) {
        return Err(CloudError::PathRejected(String::from_str(path)));
    }
    let parent = match find_last_char(path, '/') {
        Some(i) => {
            if i > 0 {
                Some(String::from_str(path.substring_char(0, i)))
            } else {
                None
            }
        },
        None => None,
    };
    Ok(WritePlan { parent })
}

/// One entry of a directory.
#[derive(Debug)]
pub struct DirEntry {
    pub name: String,
    /// The entry is itself a directory.
    pub dir: bool,
}

/// A directory's contents, or the fact that it does not exist.
#[derive(Debug)]
pub struct DirectoryListing {
    pub exists: bool,
    pub path: String,
    pub entries: Vec<DirEntry>,
}

/// The entries that could be read, in the order they were enumerated.
pub open spec fn readable_entries(scan: Seq<Option<DirEntry>>) -> Seq<DirEntry>
    decreases scan.len(),
{
    if scan.len() == 0 {
        Seq::empty()
    } else {
        let rest = readable_entries(scan.drop_last());
        match scan.last() {
            Some(e) => rest.push(e),
            None => rest,
        }
    }
}

/// The listing of `path` from what enumerating it gave: `None` when the
/// path does not exist, else one item per enumerated entry, `None` for an
/// entry that could not be read. Unreadable entries are left out.
pub fn list_dir(path: &str, scan: Option<Vec<Option<DirEntry>>>) -> (r: DirectoryListing)
    ensures
        r.path@ == path@,
        match scan {
            None => !r.exists && r.entries@.len() == 0,
            Some(items) => r.exists && r.entries@ == readable_entries(items@),
        },
{
    match scan {
        None => DirectoryListing { exists: false, path: String::from_str(path), entries: Vec::new() },
        Some(items) => {
            let mut entries: Vec<DirEntry> = Vec::new();
            for i in 0..items.len()
                invariant
                    entries@ == readable_entries(items@.subrange(0, i as int)),
            {
                assert(items@.subrange(0, i + 1).drop_last() =~= items@.subrange(0, i as int));
                match &items[i] {
                    Some(e) => {
                        entries.push(DirEntry { name: e.name.clone(), dir: e.dir });
                    },
                    None => {},
                }
            }
            assert(items@.subrange(0, items@.len() as int) =~= items@);
            DirectoryListing { exists: true, path: String::from_str(path), entries }
        },
    }
}

} // verus!
