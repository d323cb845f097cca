//! Deleting the local database so that a fresh one can be created.

use crate::error::CloudError;
use crate::paths::local_files_of;
use vstd::prelude::*;

verus! {

/// The confirmation given when the local database is gone.
pub const RESET_DONE: &'static str = "Local database deleted";

/// What removing one file gave.
#[derive(Debug)]
pub enum RemovalResult {
    /// The file existed and was removed.
    Removed,
    /// The file did not exist; nothing was done.
    Missing,
    /// Removing the file failed with this text.
    Failed(String),
}

/// The text of the first failed removal, if any.
pub open spec fn first_failure(results: Seq<RemovalResult>) -> Option<Seq<char>>
    decreases results.len(),
{
    if results.len() == 0 {
        None
    } else {
        match results[0] {
            RemovalResult::Failed(d) => Some(d@),
            _ => first_failure(results.skip(1)),
        }
    }
}

/// The result of deleting the local database's files, from what removing
/// each gave: the confirmation when none failed, else the first failure's
/// text as it is. Missing files are no failure.
pub fn delete_local_database(results: &Vec<RemovalResult>) -> (r: Result<String, CloudError>)
    ensures
        match first_failure(results@) {
            None => r matches Ok(t) && t@ == RESET_DONE@,
            Some(d) => r matches Err(CloudError::Io(t)) && t@ == d,
        },
{
    let mut i: usize = 0;
    assert(results@.skip(0) =~= results@);
    while i < results.len()
        invariant
            i <= results@.len(),
            first_failure(results@) == first_failure(results@.skip(i as int)),
        decreases results@.len() - i,
    {
        assert(results@.skip(i as int).skip(1) =~= results@.skip(i + 1));
        match &results[i] {
            RemovalResult::Failed(d) => {
                return Err(CloudError::Io(d.clone()));
            },
            _ => {},
        }
        i = i + 1;
    }
    assert(results@.skip(i as int).len() == 0);
    Ok(String::from_str(RESET_DONE))
}

/// What removing `path` gives when removals succeed.
pub open spec fn removal_of(fs: Map<Seq<char>, Seq<u8>>, path: Seq<char>) -> RemovalResult {
    if fs.contains_key(path) {
        RemovalResult::Removed
    } else {
        RemovalResult::Missing
    }
}

/// The files after deleting the local database under `data_dir`.
pub open spec fn after_reset(fs: Map<Seq<char>, Seq<u8>>, data_dir: Seq<char>) -> Map<
    Seq<char>,
    Seq<u8>,
> {
    fs.remove_keys(local_files_of(data_dir).to_set())
}

/// Deleting the local database where none of its files exists changes no
/// file and succeeds: every removal finds its file missing.
pub proof fn lemma_reset_of_clean_directory(fs: Map<Seq<char>, Seq<u8>>, data_dir: Seq<char>)
    requires
        forall|i: int| 0 <= i < 3 ==> !fs.contains_key(#[trigger] local_files_of(data_dir)[i]),
    ensures
        after_reset(fs, data_dir) == fs,
        forall|i: int|
            0 <= i < 3 ==> #[trigger] removal_of(fs, local_files_of(data_dir)[i])
                == RemovalResult::Missing,
        first_failure(local_files_of(data_dir).map_values(|p: Seq<char>| removal_of(fs, p)))
            is None,
{
    let files = local_files_of(data_dir);
    assert forall|p: Seq<char>| files.to_set().contains(p) implies !fs.contains_key(p) by {
        assert(files.contains(p));
        let i = choose|i: int| 0 <= i < files.len() && files[i] == p;
        assert(!fs.contains_key(files[i]));
    }
    assert(after_reset(fs, data_dir) =~= fs);
    let results = files.map_values(|p: Seq<char>| removal_of(fs, p));
    assert(results[0] == removal_of(fs, files[0]));
    assert(results.skip(1)[0] == removal_of(fs, files[1]));
    assert(results.skip(1).skip(1)[0] == removal_of(fs, files[2]));
    assert(results.skip(1).skip(1).skip(1).len() == 0);
    reveal_with_fuel(first_failure, 4);
}

} // verus!
