//! The migration orchestrator: moving every document of a set of
//! source correspondents to one destination correspondent, and the
//! safety-gated deletion of a correspondent.
//!
//! The orchestration is a state machine. [`MigrationMachine::start`]
//! asks for the destination to be resolved first — no work begins if it
//! is invalid. Then each source is processed to completion in turn:
//! resolve it, enumerate its document ids, and issue one bulk
//! reassignment covering exactly those ids. A source that cannot be
//! resolved or migrated is recorded in the per-source report and does
//! not stop the remaining sources. In no-op mode the machine still asks
//! for every read but never for a bulk-set call.
//!
//! What a bulk reassignment does to the server's attribution of
//! documents is modelled by [`apply_bulk_set`]; the lemmas at the end
//! state the migration laws over that model.

use vstd::prelude::*;

use crate::correspondent::Correspondent;
use crate::errors::PaperlessToolError;

verus! {

/// How the migration of one source correspondent ended.
#[derive(Debug)]
pub enum OutcomeKind {
    /// The bulk reassignment of `count` documents was issued and
    /// acknowledged.
    Migrated { count: usize },
    /// No-op mode: `count` documents would have been reassigned, but
    /// no bulk call was issued.
    Planned { count: usize },
    /// The source correspondent does not exist; it was skipped.
    NotFound,
    /// Resolution, enumeration or the bulk call failed in transport.
    Failed { message: String },
}

/// The recorded outcome for one source correspondent.
#[derive(Debug)]
pub struct SourceOutcome {
    pub source: i32,
    pub kind: OutcomeKind,
}

/// Whether one source's outcome counts as a success. A no-op run's
/// planned reassignment is a success: nothing was supposed to happen.
pub open spec fn outcome_ok(kind: OutcomeKind) -> bool {
    kind is Migrated || kind is Planned
}

/// Where the machine stands in the workflow.
#[derive(Clone, Copy, Debug)]
pub enum MigrationPhase {
    /// Waiting for the destination correspondent to be resolved.
    ResolvingDestination,
    /// Waiting for the current source correspondent to be resolved.
    ResolvingSource,
    /// Waiting for the current source's document ids.
    Enumerating,
    /// Waiting for the bulk reassignment of `count` documents to be
    /// acknowledged.
    ApplyingBulkSet { count: usize },
    /// Every source was processed; the report is complete.
    Done,
    /// The destination was invalid or unreachable; nothing was done.
    Aborted,
}

/// What the machine asks the caller to do next.
#[derive(Debug)]
pub enum MigrationAction {
    /// Fetch the correspondent record with this id (a read).
    FetchCorrespondent { id: i32 },
    /// Fetch the document ids attributed to this correspondent (a
    /// read).
    FetchDocumentIds { correspondent_id: i32 },
    /// Issue one bulk call reassigning exactly these documents to the
    /// correspondent `to` (a write).
    BulkSetCorrespondent { document_ids: Vec<i32>, to: i32 },
    /// The migration is over; the machine's outcomes are the report.
    Finished,
    /// The destination was invalid or unreachable; stop with this
    /// error before any work.
    Abort { error: PaperlessToolError },
}

/// What the caller observed doing what the machine asked.
#[derive(Debug)]
pub enum MigrationEvent {
    /// The requested correspondent exists; this is its record.
    CorrespondentFound { correspondent: Correspondent },
    /// The requested correspondent does not exist.
    CorrespondentMissing,
    /// The requested document ids, in server order.
    DocumentIds { ids: Vec<i32> },
    /// The bulk reassignment was acknowledged.
    BulkSetDone,
    /// The read or write failed in transport.
    Transport { message: String },
}

/// The migration orchestrator's state: the fixed request (sources,
/// destination, no-op flag), the phase, and the outcomes recorded so
/// far — outcome `i` belongs to source `i`, and the source currently
/// being processed is the first without an outcome.
#[derive(Debug)]
pub struct MigrationMachine {
    pub noop: bool,
    pub to: i32,
    pub sources: Vec<i32>,
    pub phase: MigrationPhase,
    pub outcomes: Vec<SourceOutcome>,
}

impl MigrationMachine {
    /// The machine's internal invariant.
    pub open spec fn wf(self) -> bool {
        &&& self.outcomes@.len() <= self.sources@.len()
        &&& (self.phase is ResolvingDestination ==> self.outcomes@.len() == 0)
        &&& ((self.phase is ResolvingSource || self.phase is Enumerating
            || self.phase is ApplyingBulkSet) ==> self.outcomes@.len() < self.sources@.len())
        &&& (self.phase is Done ==> self.outcomes@.len() == self.sources@.len())
        &&& (forall|i: int|
            0 <= i < self.outcomes@.len() ==> self.outcomes@[i].source == self.sources@[i])
    }

    /// The source correspondent now being processed.
    pub open spec fn current_source(self) -> i32 {
        self.sources@[self.outcomes@.len() as int]
    }

    /// Whether the machine still expects an event.
    pub open spec fn in_progress(self) -> bool {
        !(self.phase is Done || self.phase is Aborted)
    }

    /// Which events can answer the machine's last request.
    pub open spec fn accepts(self, event: MigrationEvent) -> bool {
        match self.phase {
            MigrationPhase::ResolvingDestination | MigrationPhase::ResolvingSource => {
                event is CorrespondentFound || event is CorrespondentMissing
                    || event is Transport
            },
            MigrationPhase::Enumerating => event is DocumentIds || event is Transport,
            MigrationPhase::ApplyingBulkSet { .. } => event is BulkSetDone || event is Transport,
            MigrationPhase::Done | MigrationPhase::Aborted => false,
        }
    }
}

/// The request and the record so far carry over unchanged from `pre`
/// to `post`.
pub open spec fn same_request(pre: MigrationMachine, post: MigrationMachine) -> bool {
    &&& post.noop == pre.noop
    &&& post.to == pre.to
    &&& post.sources@ == pre.sources@
}

/// The step closed the current source with `kind` and moved on: its
/// outcome is recorded, and the machine either starts resolving the
/// next source or, after the last one, finishes.
pub open spec fn records_and_advances(
    pre: MigrationMachine,
    post: MigrationMachine,
    kind: OutcomeKind,
    action: MigrationAction,
) -> bool {
    &&& same_request(pre, post)
    &&& post.outcomes@ == pre.outcomes@.push(
        SourceOutcome { source: pre.current_source(), kind },
    )
    &&& if post.outcomes@.len() < pre.sources@.len() {
        &&& post.phase is ResolvingSource
        &&& action matches MigrationAction::FetchCorrespondent { id }
        &&& id == pre.sources@[post.outcomes@.len() as int]
    } else {
        &&& post.phase is Done
        &&& action is Finished
    }
}

/// The step aborted the whole migration before any work: nothing is
/// recorded and the machine is dead.
pub open spec fn aborts(pre: MigrationMachine, post: MigrationMachine) -> bool {
    &&& same_request(pre, post)
    &&& post.outcomes@ == pre.outcomes@
    &&& post.phase is Aborted
}

/// The full transition relation of one orchestration step.
///
/// - While resolving the destination: a found record starts the first
///   source (or finishes at once if there is none); a missing record
///   or a transport failure aborts the whole migration — failing fast,
///   before any work.
/// - While resolving a source: a found record asks for its document
///   ids; a missing record closes the source as `NotFound`, a
///   transport failure as `Failed` — both move on to the next source.
/// - With the document ids in hand: in no-op mode the source is closed
///   as `Planned` and no write is asked for; otherwise the machine
///   asks for one bulk call reassigning exactly those ids to the
///   destination.
/// - After the bulk call: an acknowledgement closes the source as
///   `Migrated`, a transport failure as `Failed` — both move on.
pub open spec fn migration_step_spec(
    pre: MigrationMachine,
    event: MigrationEvent,
    post: MigrationMachine,
    action: MigrationAction,
) -> bool {
    match pre.phase {
        MigrationPhase::ResolvingDestination => match event {
            MigrationEvent::CorrespondentFound { correspondent } => {
                &&& same_request(pre, post)
                &&& post.outcomes@ == pre.outcomes@
                &&& if pre.sources@.len() == 0 {
                    &&& post.phase is Done
                    &&& action is Finished
                } else {
                    &&& post.phase is ResolvingSource
                    &&& action matches MigrationAction::FetchCorrespondent { id }
                    &&& id == pre.sources@[0]
                }
            },
            MigrationEvent::CorrespondentMissing => {
                &&& aborts(pre, post)
                &&& action matches MigrationAction::Abort { error }
                &&& error is NotFound
            },
            MigrationEvent::Transport { message } => {
                &&& aborts(pre, post)
                &&& action matches MigrationAction::Abort { error }
                &&& error matches PaperlessToolError::TransportError { message: m }
                &&& m == message
            },
            _ => false,
        },
        MigrationPhase::ResolvingSource => match event {
            MigrationEvent::CorrespondentFound { correspondent } => {
                &&& same_request(pre, post)
                &&& post.outcomes@ == pre.outcomes@
                &&& post.phase is Enumerating
                &&& action matches MigrationAction::FetchDocumentIds { correspondent_id }
                &&& correspondent_id == pre.current_source()
            },
            MigrationEvent::CorrespondentMissing => records_and_advances(
                pre,
                post,
                OutcomeKind::NotFound,
                action,
            ),
            MigrationEvent::Transport { message } => records_and_advances(
                pre,
                post,
                OutcomeKind::Failed { message },
                action,
            ),
            _ => false,
        },
        MigrationPhase::Enumerating => match event {
            MigrationEvent::DocumentIds { ids } => {
                if pre.noop {
                    records_and_advances(
                        pre,
                        post,
                        OutcomeKind::Planned { count: ids@.len() as usize },
                        action,
                    )
                } else {
                    &&& same_request(pre, post)
                    &&& post.outcomes@ == pre.outcomes@
                    &&& post.phase matches MigrationPhase::ApplyingBulkSet { count }
                    &&& count == ids@.len()
                    &&& action matches MigrationAction::BulkSetCorrespondent { document_ids, to }
                    &&& document_ids@ == ids@
                    &&& to == pre.to
                }
            },
            MigrationEvent::Transport { message } => records_and_advances(
                pre,
                post,
                OutcomeKind::Failed { message },
                action,
            ),
            _ => false,
        },
        MigrationPhase::ApplyingBulkSet { count } => match event {
            MigrationEvent::BulkSetDone => records_and_advances(
                pre,
                post,
                OutcomeKind::Migrated { count },
                action,
            ),
            MigrationEvent::Transport { message } => records_and_advances(
                pre,
                post,
                OutcomeKind::Failed { message },
                action,
            ),
            _ => false,
        },
        MigrationPhase::Done | MigrationPhase::Aborted => false,
    }
}

impl MigrationMachine {
    /// Starts a migration of `sources` to `to`: the machine's first
    /// request is to resolve the destination, so that an invalid one
    /// fails fast, before any work.
    pub fn start(sources: Vec<i32>, to: i32, noop: bool) -> (r: (MigrationMachine, MigrationAction))
        ensures
            r.0.wf(),
            r.0.noop == noop,
            r.0.to == to,
            r.0.sources@ == sources@,
            r.0.outcomes@ == Seq::<SourceOutcome>::empty(),
            r.0.phase is ResolvingDestination,
            r.1 matches MigrationAction::FetchCorrespondent { id } && id == to,
    {
        let machine = MigrationMachine {
            noop,
            to,
            sources,
            phase: MigrationPhase::ResolvingDestination,
            outcomes: Vec::new(),
        };
        (machine, MigrationAction::FetchCorrespondent { id: to })
    }

    /// Closes the current source with `kind` and moves to the next
    /// source, or finishes after the last one.
    fn record_and_advance(&mut self, kind: OutcomeKind) -> (action: MigrationAction)
        requires
            old(self).wf(),
            old(self).phase is ResolvingSource || old(self).phase is Enumerating || old(
                self,
            ).phase is ApplyingBulkSet,
        ensures
            final(self).wf(),
            records_and_advances(*old(self), *final(self), kind, action),
    {
        let source = self.sources[self.outcomes.len()];
        self.outcomes.push(SourceOutcome { source, kind });
        if self.outcomes.len() < self.sources.len() {
            self.phase = MigrationPhase::ResolvingSource;
            MigrationAction::FetchCorrespondent { id: self.sources[self.outcomes.len()] }
        } else {
            self.phase = MigrationPhase::Done;
            MigrationAction::Finished
        }
    }

    /// Takes the outcome of the machine's last request and decides the
    /// next one; the decision is exactly [`migration_step_spec`]. In
    /// no-op mode the answer is never a bulk-set call.
    pub fn step(&mut self, event: MigrationEvent) -> (action: MigrationAction)
        requires
            old(self).wf(),
            old(self).accepts(event),
        ensures
            final(self).wf(),
            migration_step_spec(*old(self), event, *final(self), action),
            old(self).noop ==> !(action is BulkSetCorrespondent),
    {
        let phase = self.phase;
        match phase {
            MigrationPhase::ResolvingDestination => match event {
                MigrationEvent::CorrespondentFound { correspondent: _ } => {
                    if self.sources.len() == 0 {
                        self.phase = MigrationPhase::Done;
                        MigrationAction::Finished
                    } else {
                        self.phase = MigrationPhase::ResolvingSource;
                        MigrationAction::FetchCorrespondent { id: self.sources[0] }
                    }
                },
                MigrationEvent::CorrespondentMissing => {
                    self.phase = MigrationPhase::Aborted;
                    MigrationAction::Abort { error: PaperlessToolError::NotFound }
                },
                MigrationEvent::Transport { message } => {
                    self.phase = MigrationPhase::Aborted;
                    MigrationAction::Abort {
                        error: PaperlessToolError::TransportError { message },
                    }
                },
                _ => vstd::pervasive::unreached(),
            },
            MigrationPhase::ResolvingSource => match event {
                MigrationEvent::CorrespondentFound { correspondent: _ } => {
                    let current = self.sources[self.outcomes.len()];
                    self.phase = MigrationPhase::Enumerating;
                    MigrationAction::FetchDocumentIds { correspondent_id: current }
                },
                MigrationEvent::CorrespondentMissing => self.record_and_advance(
                    OutcomeKind::NotFound,
                ),
                MigrationEvent::Transport { message } => self.record_and_advance(
                    OutcomeKind::Failed { message },
                ),
                _ => vstd::pervasive::unreached(),
            },
            MigrationPhase::Enumerating => match event {
                MigrationEvent::DocumentIds { ids } => {
                    if self.noop {
                        self.record_and_advance(OutcomeKind::Planned { count: ids.len() })
                    } else {
                        let count = ids.len();
                        self.phase = MigrationPhase::ApplyingBulkSet { count };
                        MigrationAction::BulkSetCorrespondent {
                            document_ids: ids,
                            to: self.to,
                        }
                    }
                },
                MigrationEvent::Transport { message } => self.record_and_advance(
                    OutcomeKind::Failed { message },
                ),
                _ => vstd::pervasive::unreached(),
            },
            MigrationPhase::ApplyingBulkSet { count } => match event {
                MigrationEvent::BulkSetDone => self.record_and_advance(
                    OutcomeKind::Migrated { count },
                ),
                MigrationEvent::Transport { message } => self.record_and_advance(
                    OutcomeKind::Failed { message },
                ),
                _ => vstd::pervasive::unreached(),
            },
            MigrationPhase::Done | MigrationPhase::Aborted => vstd::pervasive::unreached(),
        }
    }
}

/// Law: in no-op mode the orchestrator never asks for a bulk-set
/// call — any step answers a read, a report, or an abort — and a step
/// keeps the machine in no-op mode, so this holds along a whole run.
pub proof fn lemma_noop_issues_no_bulk_set(
    pre: MigrationMachine,
    event: MigrationEvent,
    post: MigrationMachine,
    action: MigrationAction,
)
    requires
        pre.noop,
        migration_step_spec(pre, event, post, action),
    ensures
        !(action is BulkSetCorrespondent),
        post.noop,
{
}

/// Whether any source's outcome in the report is a failure: the
/// aggregate exit status of a migration is non-zero exactly then, even
/// though the other sources were migrated.
pub fn report_has_failures(outcomes: &Vec<SourceOutcome>) -> (r: bool)
    ensures
        r == exists|i: int| 0 <= i < outcomes@.len() && !outcome_ok(#[trigger] outcomes@[i].kind),
{
    let mut i: usize = 0;
    while i < outcomes.len()
        invariant
            i <= outcomes@.len(),
            forall|j: int| 0 <= j < i ==> outcome_ok(#[trigger] outcomes@[j].kind),
        decreases outcomes@.len() - i,
    {
        let failed = match &outcomes[i].kind {
            OutcomeKind::Migrated { .. } => false,
            OutcomeKind::Planned { .. } => false,
            OutcomeKind::NotFound => true,
            OutcomeKind::Failed { .. } => true,
        };
        if failed {
            return true;
        }
        i = i + 1;
    }
    false
}

/// The reason an `UnableToDelete` error carries.
pub open spec fn spec_blocked_delete_reason() -> Seq<char> {
    "documents still refer to this correspondent and force was not given"@
}

/// The deletion safety gate: deleting a correspondent that still has
/// documents is refused with `UnableToDelete` unless `force` is given;
/// a correspondent without documents, or a forced deletion, may
/// proceed. Documents are never silently detached.
pub fn delete_decision(correspondent: &Correspondent, force: bool) -> (r: Result<
    (),
    PaperlessToolError,
>)
    ensures
        r is Ok <==> (correspondent.document_count <= 0 || force),
        r matches Err(e) ==> e matches PaperlessToolError::UnableToDelete { id, reason }
            && id == correspondent.id && reason@ == spec_blocked_delete_reason(),
{
    if correspondent.document_count > 0 && !force {
        Err(
            PaperlessToolError::UnableToDelete {
                id: correspondent.id,
                reason: "documents still refer to this correspondent and force was not given".to_owned(),
            },
        )
    } else {
        Ok(())
    }
}

/// The server's attribution of documents to correspondents, as the
/// migration laws model it: each known document id maps to the id of
/// its correspondent, if it has one.
pub open spec fn documents_of(assignment: Map<int, Option<int>>, c: int) -> Set<int> {
    Set::new(|d: int| assignment.dom().contains(d) && assignment[d] == Some(c))
}

/// What one bulk reassignment does to the server's attribution: every
/// listed document now points to `to`, every other document keeps its
/// attribution, and no document appears or disappears.
pub open spec fn apply_bulk_set(
    assignment: Map<int, Option<int>>,
    ids: Set<int>,
    to: int,
) -> Map<int, Option<int>> {
    Map::new(
        |d: int| assignment.dom().contains(d),
        |d: int|
            if ids.contains(d) {
                Some(to)
            } else {
                assignment[d]
            },
    )
}

/// Law: a bulk reassignment over zero document ids changes nothing —
/// migrating an empty source correspondent is a no-op.
pub proof fn lemma_empty_bulk_set_is_noop(assignment: Map<int, Option<int>>, to: int)
    ensures
        apply_bulk_set(assignment, Set::empty(), to) =~= assignment,
{
}

/// Law: migrating one correspondent to a different one reassigns
/// exactly the source's original documents to the destination — the
/// destination's original documents, and every document of anyone
/// else, are untouched, and afterwards no document points to the
/// source.
/// The attribution after migrating each source in `sources`, in
/// order, to `to`: each source's documents are enumerated against the
/// attribution as it then stands, and one bulk reassignment covering
/// exactly them is applied, before the next source is taken up.
pub open spec fn migrate_sources(
    assignment: Map<int, Option<int>>,
    sources: Seq<int>,
    to: int,
) -> Map<int, Option<int>>
    decreases sources.len(),
{
    if sources.len() == 0 {
        assignment
    } else {
        let first = apply_bulk_set(assignment, documents_of(assignment, sources[0]), to);
        migrate_sources(first, sources.skip(1), to)
    }
}

/// Whether document `d` is attributed to one of the `sources`.
pub open spec fn attributed_to_any(
    assignment: Map<int, Option<int>>,
    d: int,
    sources: Seq<int>,
) -> bool {
    assignment[d] matches Some(c) && sources.contains(c)
}

/// Law: after a whole migration batch of `sources` to a destination
/// that is not itself a source, every document originally attributed
/// to any source is attributed to the destination, every other
/// document is untouched, and no document appears or disappears.
pub proof fn lemma_batch_migration(
    assignment: Map<int, Option<int>>,
    sources: Seq<int>,
    to: int,
)
    requires
        !sources.contains(to),
    ensures
        ({
            let after = migrate_sources(assignment, sources, to);
            &&& after.dom() =~= assignment.dom()
            &&& (forall|d: int|
                assignment.dom().contains(d) && attributed_to_any(assignment, d, sources)
                    ==> #[trigger] after[d] == Some(to))
            &&& (forall|d: int|
                assignment.dom().contains(d) && !attributed_to_any(assignment, d, sources)
                    ==> #[trigger] after[d] == assignment[d])
        }),
    decreases sources.len(),
{
    if sources.len() == 0 {
    } else {
        let c0 = sources[0];
        let rest = sources.skip(1);
        let first = apply_bulk_set(assignment, documents_of(assignment, c0), to);
        let after = migrate_sources(assignment, sources, to);
        assert forall|c: int| sources.contains(c) implies (c == c0 || rest.contains(c)) by {
            let i = choose|i: int| 0 <= i < sources.len() && sources[i] == c;
            if i >= 1 {
                assert(rest[i - 1] == c);
            }
        }
        assert forall|c: int| c == c0 || rest.contains(c) implies sources.contains(c) by {
            if c == c0 {
                assert(sources[0] == c);
            } else {
                let i = choose|i: int| 0 <= i < rest.len() && rest[i] == c;
                assert(sources[i + 1] == c);
            }
        }
        assert(first.dom() =~= assignment.dom());
        lemma_batch_migration(first, rest, to);
        assert(after == migrate_sources(first, rest, to));
        assert forall|d: int|
            assignment.dom().contains(d) && attributed_to_any(assignment, d, sources)
                implies #[trigger] after[d] == Some(to) by {
            let c = assignment[d]->0;
            if c == c0 {
                assert(first[d] == Some(to));
                assert(!rest.contains(to));
            } else {
                assert(first[d] == assignment[d]);
                assert(rest.contains(c));
            }
        }
        assert forall|d: int|
            assignment.dom().contains(d) && !attributed_to_any(assignment, d, sources)
                implies #[trigger] after[d] == assignment[d] by {
            assert(!documents_of(assignment, c0).contains(d));
            assert(first[d] == assignment[d]);
        }
    }
}

pub proof fn lemma_migration_reassigns_exactly(
    assignment: Map<int, Option<int>>,
    c1: int,
    c2: int,
)
    requires
        c1 != c2,
    ensures
        ({
            let moved = documents_of(assignment, c1);
            let after = apply_bulk_set(assignment, moved, c2);
            &&& after.dom() =~= assignment.dom()
            &&& (forall|d: int| moved.contains(d) ==> after[d] == Some(c2))
            &&& (forall|d: int|
                assignment.dom().contains(d) && !moved.contains(d) ==> after[d] == assignment[d])
            &&& documents_of(after, c2) =~= documents_of(assignment, c2) + documents_of(
                assignment,
                c1,
            )
            &&& documents_of(after, c1) =~= Set::<int>::empty()
        }),
{
}

} // verus!
