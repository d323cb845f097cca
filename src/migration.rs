//! One-shot migration of the database out of the synced container into
//! local storage. The decisions are a state machine: the caller performs
//! each action it asks for and hands back what happened.

use crate::container::Container;
use crate::dbfile::{check_database_page, page_verdict, PageVerdict};
use crate::error::CloudError;
use crate::paths::{legacy_database_of, legacy_database_path, local_database_of, local_database_path};
use vstd::prelude::*;

verus! {

/// The finding recorded when the copied file is not a database that opens.
pub const MALFORMED_COPY: &'static str = "copied database has a malformed header";

/// The finding recorded when the copied file fails its integrity check.
pub const CORRUPT_COPY: &'static str = "copied database failed its integrity check";

/// How one migration attempt ended.
#[derive(Debug)]
pub enum MigrationOutcome {
    /// The legacy database was copied and the copy passed its check.
    Migrated,
    /// A non-empty local database exists already; nothing was done.
    SkippedAlreadyLocal,
    /// No container or no legacy database to copy.
    SkippedNoSource,
    /// The copy failed its integrity check and was removed.
    FailedCorrupt(String),
    /// A file operation failed, or the copy could not be opened as a
    /// database; the copy was removed.
    FailedIo(String),
}

/// A migration outcome with its texts as character sequences.
pub enum OutcomeModel {
    Migrated,
    SkippedAlreadyLocal,
    SkippedNoSource,
    FailedCorrupt(Seq<char>),
    FailedIo(Seq<char>),
}

impl View for MigrationOutcome {
    type V = OutcomeModel;

    open spec fn view(&self) -> OutcomeModel {
        match self {
            MigrationOutcome::Migrated => OutcomeModel::Migrated,
            MigrationOutcome::SkippedAlreadyLocal => OutcomeModel::SkippedAlreadyLocal,
            MigrationOutcome::SkippedNoSource => OutcomeModel::SkippedNoSource,
            MigrationOutcome::FailedCorrupt(d) => OutcomeModel::FailedCorrupt(d@),
            MigrationOutcome::FailedIo(d) => OutcomeModel::FailedIo(d@),
        }
    }
}

impl MigrationOutcome {
    /// A copy of the outcome.
    pub fn duplicate(&self) -> (r: MigrationOutcome)
        ensures
            r@ == self@,
    {
        match self {
            MigrationOutcome::Migrated => MigrationOutcome::Migrated,
            MigrationOutcome::SkippedAlreadyLocal => MigrationOutcome::SkippedAlreadyLocal,
            MigrationOutcome::SkippedNoSource => MigrationOutcome::SkippedNoSource,
            MigrationOutcome::FailedCorrupt(d) => MigrationOutcome::FailedCorrupt(d.clone()),
            MigrationOutcome::FailedIo(d) => MigrationOutcome::FailedIo(d.clone()),
        }
    }
}

/// What the caller is asked to do next.
#[derive(Clone, Copy, Debug, PartialEq, Eq, Structural)]
pub enum MigrationAction {
    /// Report the size of the local database file, or that it is absent.
    MeasureLocal,
    /// Resolve the container, within the bounded wait.
    ResolveContainer,
    /// Report whether the legacy database file exists.
    ProbeLegacy,
    /// Copy the legacy primary file, and nothing beside it, to the local path.
    CopyPrimary,
    /// Read the local copy in full.
    InspectCopy,
    /// Remove the local copy.
    RemoveCopy,
    /// Stop: the outcome is settled.
    Finish,
}

/// What happened when the caller performed an action.
#[derive(Debug)]
pub enum MigrationEvent {
    /// The local file's size in bytes, `None` when it is absent.
    LocalMeasured(Option<u64>),
    /// The container, or why none could be had.
    ContainerResolved(Result<Container, CloudError>),
    /// Whether the legacy file exists.
    LegacyProbed(bool),
    /// The copy finished, or failed with this text.
    Copied(Result<(), String>),
    /// The copy's bytes, or the text of the failure to read them.
    Inspected(Result<Vec<u8>, String>),
    /// The copy was removed, or removing it failed with this text.
    Removed(Result<(), String>),
}

/// An event with its values as mathematical ones; failures of file
/// operations are their texts.
pub enum EventModel {
    LocalMeasured(Option<nat>),
    ContainerResolved(Option<Seq<char>>),
    LegacyProbed(bool),
    Copied(Option<Seq<char>>),
    Inspected(Result<Seq<u8>, Seq<char>>),
    Removed(Option<Seq<char>>),
}

pub open spec fn failure_text(r: Result<(), String>) -> Option<Seq<char>> {
    match r {
        Ok(_) => None,
        Err(d) => Some(d@),
    }
}

impl View for MigrationEvent {
    type V = EventModel;

    open spec fn view(&self) -> EventModel {
        match self {
            MigrationEvent::LocalMeasured(len) => EventModel::LocalMeasured(
                match len {
                    Some(n) => Some(*n as nat),
                    None => None,
                },
            ),
            MigrationEvent::ContainerResolved(r) => EventModel::ContainerResolved(
                match r {
                    Ok(c) => Some(c.path@),
                    Err(_) => None,
                },
            ),
            MigrationEvent::LegacyProbed(b) => EventModel::LegacyProbed(*b),
            MigrationEvent::Copied(r) => EventModel::Copied(failure_text(*r)),
            MigrationEvent::Inspected(r) => EventModel::Inspected(
                match r {
                    Ok(b) => Ok(b@),
                    Err(d) => Err(d@),
                },
            ),
            MigrationEvent::Removed(r) => EventModel::Removed(failure_text(*r)),
        }
    }
}

enum Phase {
    MeasuringLocal,
    ResolvingContainer,
    ProbingLegacy,
    Copying,
    Inspecting,
    Removing(MigrationOutcome),
    Finished(MigrationOutcome),
}

/// Where a migration stands.
pub enum PhaseModel {
    MeasuringLocal,
    ResolvingContainer,
    ProbingLegacy,
    Copying,
    Inspecting,
    /// The copy is being removed; the outcome that follows if that succeeds.
    Removing(OutcomeModel),
    Finished(OutcomeModel),
}

/// A migration: the local database path, the legacy one once the container
/// is known (empty before), and the phase.
pub struct MigrationModel {
    pub local: Seq<char>,
    pub legacy: Seq<char>,
    pub phase: PhaseModel,
}

/// A migration in progress.
pub struct Migration {
    local: String,
    legacy: String,
    phase: Phase,
}

impl View for Migration {
    type V = MigrationModel;

    closed spec fn view(&self) -> MigrationModel {
        MigrationModel {
            local: self.local@,
            legacy: self.legacy@,
            phase: match self.phase {
                Phase::MeasuringLocal => PhaseModel::MeasuringLocal,
                Phase::ResolvingContainer => PhaseModel::ResolvingContainer,
                Phase::ProbingLegacy => PhaseModel::ProbingLegacy,
                Phase::Copying => PhaseModel::Copying,
                Phase::Inspecting => PhaseModel::Inspecting,
                Phase::Removing(o) => PhaseModel::Removing(o@),
                Phase::Finished(o) => PhaseModel::Finished(o@),
            },
        }
    }
}

/// A migration of the database under the local data directory `data_dir`,
/// before any step.
pub open spec fn start(data_dir: Seq<char>) -> MigrationModel {
    MigrationModel {
        local: local_database_of(data_dir),
        legacy: Seq::empty(),
        phase: PhaseModel::MeasuringLocal,
    }
}

/// The action that a phase asks for.
pub open spec fn action_of(p: PhaseModel) -> MigrationAction {
    match p {
        PhaseModel::MeasuringLocal => MigrationAction::MeasureLocal,
        PhaseModel::ResolvingContainer => MigrationAction::ResolveContainer,
        PhaseModel::ProbingLegacy => MigrationAction::ProbeLegacy,
        PhaseModel::Copying => MigrationAction::CopyPrimary,
        PhaseModel::Inspecting => MigrationAction::InspectCopy,
        PhaseModel::Removing(_) => MigrationAction::RemoveCopy,
        PhaseModel::Finished(_) => MigrationAction::Finish,
    }
}

pub open spec fn with_phase(m: MigrationModel, p: PhaseModel) -> MigrationModel {
    MigrationModel { local: m.local, legacy: m.legacy, phase: p }
}

/// The outcome that follows the check of the copy's bytes: a sound copy
/// is kept; any other is removed before a failure is reported.
pub open spec fn after_inspection(bytes: Seq<u8>) -> PhaseModel {
    match page_verdict(bytes) {
        PageVerdict::Sound => PhaseModel::Finished(OutcomeModel::Migrated),
        PageVerdict::Malformed => PhaseModel::Removing(OutcomeModel::FailedIo(MALFORMED_COPY@)),
        PageVerdict::Corrupt => PhaseModel::Removing(OutcomeModel::FailedCorrupt(CORRUPT_COPY@)),
    }
}

/// One step. An event that does not answer the phase's action leaves the
/// migration as it was.
pub open spec fn next(m: MigrationModel, e: EventModel) -> MigrationModel {
    match (m.phase, e) {
        (PhaseModel::MeasuringLocal, EventModel::LocalMeasured(len)) => {
            if len matches Some(n) && n > 0 {
                with_phase(m, PhaseModel::Finished(OutcomeModel::SkippedAlreadyLocal))
            } else {
                with_phase(m, PhaseModel::ResolvingContainer)
            }
        },
        (PhaseModel::ResolvingContainer, EventModel::ContainerResolved(c)) => match c {
            Some(path) => MigrationModel {
                local: m.local,
                legacy: legacy_database_of(path),
                phase: PhaseModel::ProbingLegacy,
            },
            None => with_phase(m, PhaseModel::Finished(OutcomeModel::SkippedNoSource)),
        },
        (PhaseModel::ProbingLegacy, EventModel::LegacyProbed(found)) => {
            if found {
                with_phase(m, PhaseModel::Copying)
            } else {
                with_phase(m, PhaseModel::Finished(OutcomeModel::SkippedNoSource))
            }
        },
        (PhaseModel::Copying, EventModel::Copied(failure)) => match failure {
            None => with_phase(m, PhaseModel::Inspecting),
            Some(d) => with_phase(m, PhaseModel::Removing(OutcomeModel::FailedIo(d))),
        },
        (PhaseModel::Inspecting, EventModel::Inspected(r)) => match r {
            Ok(bytes) => with_phase(m, after_inspection(bytes)),
            Err(d) => with_phase(m, PhaseModel::Removing(OutcomeModel::FailedIo(d))),
        },
        (PhaseModel::Removing(o), EventModel::Removed(failure)) => match failure {
            None => with_phase(m, PhaseModel::Finished(o)),
            Some(d) => with_phase(m, PhaseModel::Finished(OutcomeModel::FailedIo(d))),
        },
        _ => m,
    }
}

impl Migration {
    /// Starts the migration of the database under `data_dir`.
    pub fn new(data_dir: &str) -> (r: Migration)
        ensures
            r@ == start(data_dir@),
    {
        Migration {
            local: local_database_path(data_dir),
            legacy: String::new(),
            phase: Phase::MeasuringLocal,
        }
    }

    /// The local database path, which the migration writes.
    pub fn local_path(&self) -> (r: &str)
        ensures
            r@ == self@.local,
    {
        self.local.as_str()
    }

    /// The legacy database path, which the migration only reads.
    pub fn legacy_path(&self) -> (r: &str)
        ensures
            r@ == self@.legacy,
    {
        self.legacy.as_str()
    }

    /// The action asked for now.
    pub fn action(&self) -> (a: MigrationAction)
        ensures
            a == action_of(self@.phase),
    {
        match &self.phase {
            Phase::MeasuringLocal => MigrationAction::MeasureLocal,
            Phase::ResolvingContainer => MigrationAction::ResolveContainer,
            Phase::ProbingLegacy => MigrationAction::ProbeLegacy,
            Phase::Copying => MigrationAction::CopyPrimary,
            Phase::Inspecting => MigrationAction::InspectCopy,
            Phase::Removing(_) => MigrationAction::RemoveCopy,
            Phase::Finished(_) => MigrationAction::Finish,
        }
    }

    /// The outcome, once the migration has finished.
    pub fn outcome(&self) -> (r: Option<MigrationOutcome>)
        ensures
            match self@.phase {
                PhaseModel::Finished(o) => r matches Some(x) && x@ == o,
                _ => r is None,
            },
    {
        match &self.phase {
            Phase::Finished(o) => Some(o.duplicate()),
            _ => None,
        }
    }

    /// Takes in what happened when the last action was performed, and
    /// returns the next action.
    pub fn advance(&mut self, event: MigrationEvent) -> (a: MigrationAction)
        ensures
            final(self)@ == next(old(self)@, event@),
            a == action_of(final(self)@.phase),
    {
        let mut current = Phase::MeasuringLocal;
        std::mem::swap(&mut current, &mut self.phase);
        let updated = match (current, event) {
            (Phase::MeasuringLocal, MigrationEvent::LocalMeasured(len)) => match len {
                Some(n) => {
                    if n > 0 {
                        Phase::Finished(MigrationOutcome::SkippedAlreadyLocal)
                    } else {
                        Phase::ResolvingContainer
                    }
                },
                None => Phase::ResolvingContainer,
            },
            (Phase::ResolvingContainer, MigrationEvent::ContainerResolved(r)) => match r {
                Ok(c) => {
                    self.legacy = legacy_database_path(c.path.as_str());
                    Phase::ProbingLegacy
                },
                Err(_) => Phase::Finished(MigrationOutcome::SkippedNoSource),
            },
            (Phase::ProbingLegacy, MigrationEvent::LegacyProbed(found)) => {
                if found {
                    Phase::Copying
                } else {
                    Phase::Finished(MigrationOutcome::SkippedNoSource)
                }
            },
            (Phase::Copying, MigrationEvent::Copied(r)) => match r {
                Ok(_) => Phase::Inspecting,
                Err(d) => Phase::Removing(MigrationOutcome::FailedIo(d)),
            },
            (Phase::Inspecting, MigrationEvent::Inspected(r)) => match r {
                Ok(bytes) => match check_database_page(bytes.as_slice()) {
                    PageVerdict::Sound => Phase::Finished(MigrationOutcome::Migrated),
                    PageVerdict::Malformed => Phase::Removing(
                        MigrationOutcome::FailedIo(String::from_str(MALFORMED_COPY)),
                    ),
                    PageVerdict::Corrupt => Phase::Removing(
                        MigrationOutcome::FailedCorrupt(String::from_str(CORRUPT_COPY)),
                    ),
                },
                Err(d) => Phase::Removing(MigrationOutcome::FailedIo(d)),
            },
            (Phase::Removing(o), MigrationEvent::Removed(r)) => match r {
                Ok(_) => Phase::Finished(o),
                Err(d) => Phase::Finished(MigrationOutcome::FailedIo(d)),
            },
            (p, _) => p,
        };
        self.phase = updated;
        self.action()
    }
}

/// What a caller shows after a migration attempt.
#[derive(Debug)]
pub struct MigrationReport {
    pub migrated: bool,
    pub message: String,
}

pub open spec fn report_text(o: OutcomeModel) -> Seq<char> {
    match o {
        OutcomeModel::Migrated => "Migrated database from iCloud to local storage"@,
        OutcomeModel::SkippedAlreadyLocal => "Local database already exists"@,
        OutcomeModel::SkippedNoSource => "No iCloud database to migrate"@,
        OutcomeModel::FailedCorrupt(d) => "Migration failed: "@ + d,
        OutcomeModel::FailedIo(d) => "Migration failed: "@ + d,
    }
}

/// The report of a migration outcome: whether the database moved, and why.
pub fn migration_report(outcome: &MigrationOutcome) -> (r: MigrationReport)
    ensures
        r.migrated == (outcome@ is Migrated),
        r.message@ == report_text(outcome@),
{
    match outcome {
        MigrationOutcome::Migrated => MigrationReport {
            migrated: true,
            message: String::from_str("Migrated database from iCloud to local storage"),
        },
        MigrationOutcome::SkippedAlreadyLocal => MigrationReport {
            migrated: false,
            message: String::from_str("Local database already exists"),
        },
        MigrationOutcome::SkippedNoSource => MigrationReport {
            migrated: false,
            message: String::from_str("No iCloud database to migrate"),
        },
        MigrationOutcome::FailedCorrupt(d) => {
            let mut message = String::from_str("Migration failed: ");
            message.append(d.as_str());
            MigrationReport { migrated: false, message }
        },
        MigrationOutcome::FailedIo(d) => {
            let mut message = String::from_str("Migration failed: ");
            message.append(d.as_str());
            MigrationReport { migrated: false, message }
        },
    }
}

} // verus!
