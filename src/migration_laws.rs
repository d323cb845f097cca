//! The migration run against a file system in which every operation
//! succeeds, and what holds of every such run.

use crate::dbfile::{page_verdict, PageVerdict};
use crate::migration::{
    action_of, next, start, with_phase, EventModel, MigrationAction, MigrationModel, OutcomeModel, PhaseModel,
};
use crate::paths::{legacy_database_of, local_database_of};
use vstd::prelude::*;

verus! {

/// What performing the action of `m` gives, on files `fs` (path to
/// contents) where every operation succeeds and the container lookup gives
/// `container`: the files afterwards and the event to hand back. `Finish`
/// is never performed; `run` stops there.
pub open spec fn perform(
    fs: Map<Seq<char>, Seq<u8>>,
    m: MigrationModel,
    container: Option<Seq<char>>,
) -> (Map<Seq<char>, Seq<u8>>, EventModel) {
    match action_of(m.phase) {
        MigrationAction::MeasureLocal => (
            fs,
            EventModel::LocalMeasured(
                if fs.contains_key(m.local) {
                    Some(fs[m.local].len())
                } else {
                    None
                },
            ),
        ),
        MigrationAction::ResolveContainer => (fs, EventModel::ContainerResolved(container)),
        MigrationAction::ProbeLegacy => (fs, EventModel::LegacyProbed(fs.contains_key(m.legacy))),
        MigrationAction::CopyPrimary => (fs.insert(m.local, fs[m.legacy]), EventModel::Copied(None)),
        MigrationAction::InspectCopy => (fs, EventModel::Inspected(Ok(fs[m.local]))),
        MigrationAction::RemoveCopy => (fs.remove(m.local), EventModel::Removed(None)),
        MigrationAction::Finish => (fs, EventModel::Removed(None)),
    }
}

/// Up to `fuel` steps of the migration from `m`, stopping when it finishes.
pub open spec fn run(
    fs: Map<Seq<char>, Seq<u8>>,
    m: MigrationModel,
    container: Option<Seq<char>>,
    fuel: nat,
) -> (Map<Seq<char>, Seq<u8>>, MigrationModel)
    decreases fuel,
{
    if fuel == 0 || m.phase is Finished {
        (fs, m)
    } else {
        let (after, e) = perform(fs, m, container);
        run(after, next(m, e), container, (fuel - 1) as nat)
    }
}

/// A whole migration of the database under `data_dir`: the files afterwards
/// and the final state. Six steps are enough for any migration to finish.
pub open spec fn migrate(
    fs: Map<Seq<char>, Seq<u8>>,
    data_dir: Seq<char>,
    container: Option<Seq<char>>,
) -> (Map<Seq<char>, Seq<u8>>, MigrationModel) {
    run(fs, start(data_dir), container, 6)
}

/// A migration that leaves a local database behind, run again on the files
/// it left, finishes at once with the local database already there and
/// changes nothing.
pub proof fn lemma_second_migration_skips(
    fs: Map<Seq<char>, Seq<u8>>,
    data_dir: Seq<char>,
    container: Option<Seq<char>>,
)
    ensures
        ({
            let (after, m) = migrate(fs, data_dir, container);
            (m.phase == PhaseModel::Finished(OutcomeModel::Migrated) || m.phase
                == PhaseModel::Finished(OutcomeModel::SkippedAlreadyLocal)) ==> migrate(
                after,
                data_dir,
                container,
            ) == (after, with_phase(start(data_dir), PhaseModel::Finished(OutcomeModel::SkippedAlreadyLocal)))
        }),
{
    reveal_with_fuel(run, 7);
}

/// A local database file of zero bytes is treated as no local database:
/// both lead to the same next state.
pub proof fn lemma_empty_local_counts_as_absent(m: MigrationModel)
    ensures
        next(m, EventModel::LocalMeasured(Some(0))) == next(m, EventModel::LocalMeasured(None)),
{
}

/// A migration that fails leaves no file at the local database path.
pub proof fn lemma_failure_leaves_no_local_file(
    fs: Map<Seq<char>, Seq<u8>>,
    data_dir: Seq<char>,
    container: Option<Seq<char>>,
)
    ensures
        ({
            let (after, m) = migrate(fs, data_dir, container);
            (m.phase matches PhaseModel::Finished(o) && (o is FailedCorrupt || o is FailedIo))
                ==> !after.contains_key(local_database_of(data_dir))
        }),
{
    reveal_with_fuel(run, 7);
}

/// Migration is copy-only: no file but the local database is created,
/// changed or removed; the legacy file in particular stays as it was.
pub proof fn lemma_only_local_file_changes(
    fs: Map<Seq<char>, Seq<u8>>,
    data_dir: Seq<char>,
    container: Option<Seq<char>>,
    path: Seq<char>,
)
    requires
        path != local_database_of(data_dir),
    ensures
        ({
            let after = migrate(fs, data_dir, container).0;
            &&& after.contains_key(path) == fs.contains_key(path)
            &&& fs.contains_key(path) ==> after[path] == fs[path]
        }),
{
    reveal_with_fuel(run, 7);
}

/// With no local database, a container, and a legacy database that passes
/// the check, migration copies it: the outcome is `Migrated` and the local
/// file holds the legacy bytes, which pass the same check.
pub proof fn lemma_sound_legacy_is_migrated(
    fs: Map<Seq<char>, Seq<u8>>,
    data_dir: Seq<char>,
    container: Seq<char>,
)
    requires
        !fs.contains_key(local_database_of(data_dir)),
        fs.contains_key(legacy_database_of(container)),
        page_verdict(fs[legacy_database_of(container)]) == PageVerdict::Sound,
    ensures
        ({
            let (after, m) = migrate(fs, data_dir, Some(container));
            &&& m.phase == PhaseModel::Finished(OutcomeModel::Migrated)
            &&& after == fs.insert(local_database_of(data_dir), fs[legacy_database_of(container)])
            &&& page_verdict(after[local_database_of(data_dir)]) == PageVerdict::Sound
        }),
{
    reveal_with_fuel(run, 7);
}

/// With no local database, a container, and a legacy database that fails
/// the check, migration fails, as corrupt or as unreadable, and leaves the
/// files exactly as they were: no local file is left behind.
pub proof fn lemma_broken_legacy_leaves_files_unchanged(
    fs: Map<Seq<char>, Seq<u8>>,
    data_dir: Seq<char>,
    container: Seq<char>,
)
    requires
        !fs.contains_key(local_database_of(data_dir)),
        fs.contains_key(legacy_database_of(container)),
        page_verdict(fs[legacy_database_of(container)]) != PageVerdict::Sound,
    ensures
        ({
            let (after, m) = migrate(fs, data_dir, Some(container));
            &&& m.phase matches PhaseModel::Finished(o) && (o is FailedCorrupt || o is FailedIo)
            &&& after == fs
            &&& !after.contains_key(local_database_of(data_dir))
        }),
{
    reveal_with_fuel(run, 7);
    let local = local_database_of(data_dir);
    assert(fs.insert(local, fs[legacy_database_of(container)]).remove(local) =~= fs);
}

} // verus!
