//! The extraction pipeline.
//!
//! One extraction is a fixed sequence — list, pull, create, copy, unpack,
//! remove — driven as a state machine: the caller performs each emitted
//! [`Action`] against the engine and feeds the outcome back as an [`Event`].
//! The machine owns the cleanup-on-error policy: once a container exists,
//! every path to the end attempts to remove it, exactly once, and a fault
//! met before cleanup is the one surfaced — a failure of the cleanup itself
//! is only reported, never allowed to mask it or to invalidate an already
//! completed extraction.

use vstd::prelude::*;
use vstd::pervasive::unreached;

use crate::archive::{
    all_entries_safe, find_unsafe_entry, read_archive_entries, safe_entry_path, tar_entries_of,
    ArchiveEntry,
};
use crate::container::{Container, CreateRequest, PullRequest, RemoveRequest, tag_listed};
use crate::error::{ExtractionCause, Fault, Op};

verus! {

/// What one extraction was asked to do. Built once, read-only afterwards.
/// `write_to_stdout` never reaches the pipeline true: the validation gate
/// rejects it first.
pub struct ExtractionRequest {
    /// Where the content sits in the container filesystem.
    pub content_path: String,
    /// The directory the content is unpacked into.
    pub download_path: String,
    /// Registry username, passed through to the pull call.
    pub username: String,
    /// Registry password, passed through to the pull call.
    pub password: String,
    /// Pull even when the image is already present locally.
    pub force_pull: bool,
    /// Write to stdout instead of the filesystem; rejected at validation.
    pub write_to_stdout: bool,
}

/// Whether the created container's removal was attempted, and how it went.
pub enum Cleanup {
    /// No container was ever created, so there was nothing to remove.
    NotNeeded,
    /// Removal was attempted; `removed` says whether the engine confirmed it.
    Attempted { removed: bool },
}

/// Where the extraction stands.
pub enum State {
    /// The engine's image list was asked for, to decide whether to pull.
    Listing,
    /// The pull call is in flight.
    Pulling,
    /// The create call is in flight.
    Creating,
    /// The copy call is in flight for the created container.
    Copying { container: String },
    /// The decoded entries are being written to disk.
    Writing { container: String },
    /// The removal call is in flight; `failure` carries the fault to
    /// surface once cleanup has been attempted, if one occurred.
    Removing { container: String, failure: Option<Fault> },
    /// The run is over.
    Finished { outcome: Result<(), Fault>, cleanup: Cleanup },
}

/// The outcome of one performed action, fed back into the machine.
pub enum Event {
    /// The image list call returned these tag strings.
    ImagesListed { tags: Vec<String> },
    /// The image list call failed; the image is treated as absent.
    ListFailed,
    /// The pull stream was consumed to its end.
    PullFinished,
    /// The pull failed or its stream broke; partial pulls are not retried.
    PullFailed { message: String },
    /// The engine created a container and assigned it this identifier.
    Created { container: String },
    /// The create call failed.
    CreateFailed { message: String },
    /// The copy call returned this archive byte stream.
    CopyFinished { archive: Vec<u8> },
    /// The copy call failed; `missing_path` says whether the engine
    /// reported the content path absent from the container filesystem.
    CopyFailed { missing_path: bool, message: String },
    /// Every entry was written to disk.
    WriteFinished,
    /// Writing the entries to disk failed.
    WriteFailed { message: String },
    /// The engine confirmed the container's removal.
    RemoveFinished,
    /// The removal call failed; this is reported but never retried.
    RemoveFailed { message: String },
}

/// What the caller is asked to do next.
#[allow(inconsistent_fields)]
pub enum Action {
    /// List the images the engine knows, with their full tag strings.
    ListImages,
    /// Issue the pull call and consume its progress stream to the end.
    Pull { request: PullRequest },
    /// Issue the create call.
    Create { request: CreateRequest },
    /// Retrieve `source` from the container's filesystem as a tar stream.
    CopyFrom { container: String, source: String },
    /// Write the decoded entries under `destination`, keeping each entry's
    /// relative path and permission bits.
    WriteEntries { entries: Vec<ArchiveEntry>, destination: String },
    /// Issue the removal call.
    Remove { request: RemoveRequest },
}

/// Which events can answer which state.
pub open spec fn compatible(s: State, e: Event) -> bool {
    match s {
        State::Listing => e is ImagesListed || e is ListFailed,
        State::Pulling => e is PullFinished || e is PullFailed,
        State::Creating => e is Created || e is CreateFailed,
        State::Copying { .. } => e is CopyFinished || e is CopyFailed,
        State::Writing { .. } => e is WriteFinished || e is WriteFailed,
        State::Removing { .. } => e is RemoveFinished || e is RemoveFailed,
        State::Finished { .. } => false,
    }
}

/// The state one event leads to. An event that does not answer the state
/// leaves it unchanged.
pub open spec fn spec_next<C: Container>(cap: C, req: ExtractionRequest, s: State, e: Event) -> State {
    match (s, e) {
        (State::Listing, Event::ImagesListed { tags }) => {
            if tag_listed(tags@, cap.image_ref()) && !req.force_pull {
                State::Creating
            } else {
                State::Pulling
            }
        },
        (State::Listing, Event::ListFailed) => State::Pulling,
        (State::Pulling, Event::PullFinished) => State::Creating,
        (State::Pulling, Event::PullFailed { message }) => State::Finished {
            outcome: Err(Fault::Engine { op: Op::Pull, message }),
            cleanup: Cleanup::NotNeeded,
        },
        (State::Creating, Event::Created { container }) => State::Copying { container },
        (State::Creating, Event::CreateFailed { message }) => State::Finished {
            outcome: Err(Fault::Engine { op: Op::Create, message }),
            cleanup: Cleanup::NotNeeded,
        },
        (State::Copying { container }, Event::CopyFinished { archive }) => {
            if archive@.len() == 0 {
                State::Removing {
                    container,
                    failure: Some(Fault::Extraction { cause: ExtractionCause::EmptyArchive }),
                }
            } else {
                match tar_entries_of(archive@) {
                    Some(es) => {
                        if all_entries_safe(es) {
                            State::Writing { container }
                        } else {
                            State::Removing {
                                container,
                                failure: Some(
                                    Fault::Extraction { cause: ExtractionCause::UnsafePath },
                                ),
                            }
                        }
                    },
                    None => State::Removing {
                        container,
                        failure: Some(Fault::Extraction { cause: ExtractionCause::Decode }),
                    },
                }
            }
        },
        (State::Copying { container }, Event::CopyFailed { missing_path, message }) => {
            State::Removing {
                container,
                failure: Some(
                    if missing_path {
                        Fault::Extraction { cause: ExtractionCause::MissingPath { message } }
                    } else {
                        Fault::Engine { op: Op::Copy, message }
                    },
                ),
            }
        },
        (State::Writing { container }, Event::WriteFinished) => State::Removing {
            container,
            failure: None,
        },
        (State::Writing { container }, Event::WriteFailed { message }) => State::Removing {
            container,
            failure: Some(Fault::Extraction { cause: ExtractionCause::WriteFailed { message } }),
        },
        (State::Removing { container: _, failure }, Event::RemoveFinished) => State::Finished {
            outcome: match failure {
                Some(f) => Err(f),
                None => Ok(()),
            },
            cleanup: Cleanup::Attempted { removed: true },
        },
        (State::Removing { container: _, failure }, Event::RemoveFailed { message: _ }) => {
            State::Finished {
                outcome: match failure {
                    Some(f) => Err(f),
                    None => Ok(()),
                },
                cleanup: Cleanup::Attempted { removed: false },
            }
        },
        (s0, _) => s0,
    }
}

/// True when the step from `s` under `e` asks for the container's removal.
pub open spec fn emits_remove<C: Container>(cap: C, req: ExtractionRequest, s: State, e: Event) -> bool {
    !(s is Removing) && spec_next(cap, req, s, e) is Removing
}

/// Begins an extraction: the engine's image list is asked for first, to
/// decide whether a pull is needed at all. A request that asks for stdout
/// output never reaches this point: the validation gate rejects it before
/// any engine interaction.
pub fn start(req: &ExtractionRequest) -> (r: (State, Action))
    requires
        !req.write_to_stdout,
    ensures
        r.0 is Listing,
        r.1 is ListImages,
{
    (State::Listing, Action::ListImages)
}

/// Builds the removal transition: the machine moves to `Removing`, keeping
/// the fault to surface, and asks for the removal call.
fn remove_transition<C: Container>(cap: &C, container: String, failure: Option<Fault>) -> (r: (
    State,
    Option<Action>,
))
    ensures
        r.0 == (State::Removing { container, failure }),
        r.1 == Some(Action::Remove { request: (RemoveRequest { id: container, force: true }) }),
{
    let request = cap.remove_request(container.clone());
    (State::Removing { container, failure }, Some(Action::Remove { request }))
}

/// Feeds one event into the machine and returns the new state and the next
/// action to perform, if any. The state follows [`spec_next`] exactly;
/// every emitted request is pinned to the capability's own request shape;
/// the removal request is emitted exactly when the machine enters
/// `Removing`; and the run is over exactly when no action is asked for.
pub fn step<C: Container>(cap: &C, req: &ExtractionRequest, state: State, event: Event) -> (r: (
    State,
    Option<Action>,
))
    requires
        compatible(state, event),
    ensures
        r.0 == spec_next(*cap, *req, state, event),
        r.1 is None <==> r.0 is Finished,
        (r.1 matches Some(a) && a is Remove) <==> emits_remove(*cap, *req, state, event),
        state is Listing && r.0 is Pulling ==> r.1 == Some(
            Action::Pull { request: cap.spec_pull_request(req.username, req.password) },
        ),
        (state is Listing || state is Pulling) && r.0 is Creating ==> r.1 == Some(
            Action::Create { request: cap.spec_create_request() },
        ),
        r.0 matches State::Copying { container } ==> r.1 == Some(
            Action::CopyFrom { container, source: req.content_path },
        ),
        r.0 matches State::Removing { container, .. } ==> r.1 == Some(
            Action::Remove { request: (RemoveRequest { id: container, force: true }) },
        ),
        state is Copying && r.0 is Writing ==> ({
            &&& r.1 matches Some(a)
            &&& a matches Action::WriteEntries { entries, destination }
            &&& destination == req.download_path
            &&& event matches Event::CopyFinished { archive }
            &&& tar_entries_of(archive@) == Some(entries@.map_values(|en: ArchiveEntry| en@))
        }),
{
    match (state, event) {
        (State::Listing, Event::ImagesListed { tags }) => {
            let present = cap.present_locally(&tags);
            if present && !req.force_pull {
                (State::Creating, Some(Action::Create { request: cap.create_request() }))
            } else {
                let request = cap.pull_request(req.username.clone(), req.password.clone());
                (State::Pulling, Some(Action::Pull { request }))
            }
        },
        (State::Listing, Event::ListFailed) => {
            let request = cap.pull_request(req.username.clone(), req.password.clone());
            (State::Pulling, Some(Action::Pull { request }))
        },
        (State::Pulling, Event::PullFinished) => {
            (State::Creating, Some(Action::Create { request: cap.create_request() }))
        },
        (State::Pulling, Event::PullFailed { message }) => {
            (
                State::Finished {
                    outcome: Err(Fault::Engine { op: Op::Pull, message }),
                    cleanup: Cleanup::NotNeeded,
                },
                None,
            )
        },
        (State::Creating, Event::Created { container }) => {
            let action = Action::CopyFrom {
                container: container.clone(),
                source: req.content_path.clone(),
            };
            (State::Copying { container }, Some(action))
        },
        (State::Creating, Event::CreateFailed { message }) => {
            (
                State::Finished {
                    outcome: Err(Fault::Engine { op: Op::Create, message }),
                    cleanup: Cleanup::NotNeeded,
                },
                None,
            )
        },
        (State::Copying { container }, Event::CopyFinished { archive }) => {
            if archive.len() == 0 {
                return remove_transition(
                    cap,
                    container,
                    Some(Fault::Extraction { cause: ExtractionCause::EmptyArchive }),
                );
            }
            match read_archive_entries(&archive) {
                Some(entries) => {
                    match find_unsafe_entry(&entries) {
                        None => {
                            proof {
                                assert(all_entries_safe(
                                    entries@.map_values(|en: ArchiveEntry| en@),
                                ));
                            }
                            let action = Action::WriteEntries {
                                entries,
                                destination: req.download_path.clone(),
                            };
                            (State::Writing { container }, Some(action))
                        },
                        Some(k) => {
                            proof {
                                let es = entries@.map_values(|en: ArchiveEntry| en@);
                                assert(es[k as int] == entries@[k as int]@);
                                assert(!safe_entry_path(es[k as int].0));
                                assert(!all_entries_safe(es));
                            }
                            remove_transition(
                                cap,
                                container,
                                Some(Fault::Extraction { cause: ExtractionCause::UnsafePath }),
                            )
                        },
                    }
                },
                None => remove_transition(
                    cap,
                    container,
                    Some(Fault::Extraction { cause: ExtractionCause::Decode }),
                ),
            }
        },
        (State::Copying { container }, Event::CopyFailed { missing_path, message }) => {
            let failure = if missing_path {
                Fault::Extraction { cause: ExtractionCause::MissingPath { message } }
            } else {
                Fault::Engine { op: Op::Copy, message }
            };
            remove_transition(cap, container, Some(failure))
        },
        (State::Writing { container }, Event::WriteFinished) => {
            remove_transition(cap, container, None)
        },
        (State::Writing { container }, Event::WriteFailed { message }) => {
            remove_transition(
                cap,
                container,
                Some(Fault::Extraction { cause: ExtractionCause::WriteFailed { message } }),
            )
        },
        (State::Removing { container: _, failure }, Event::RemoveFinished) => {
            let outcome = match failure {
                Some(f) => Err(f),
                None => Ok(()),
            };
            (State::Finished { outcome, cleanup: Cleanup::Attempted { removed: true } }, None)
        },
        (State::Removing { container: _, failure }, Event::RemoveFailed { message: _ }) => {
            let outcome = match failure {
                Some(f) => Err(f),
                None => Ok(()),
            };
            (State::Finished { outcome, cleanup: Cleanup::Attempted { removed: false } }, None)
        },
        _ => unreached(),
    }
}

/// Where a sequence of events drives the machine from `s`.
pub open spec fn spec_run<C: Container>(
    cap: C,
    req: ExtractionRequest,
    s: State,
    events: Seq<Event>,
) -> State
    decreases events.len(),
{
    if events.len() == 0 {
        s
    } else {
        spec_run(cap, req, spec_next(cap, req, s, events[0]), events.drop_first())
    }
}

/// How many removal requests the machine emits while consuming `events`
/// from `s`.
pub open spec fn removes_during<C: Container>(
    cap: C,
    req: ExtractionRequest,
    s: State,
    events: Seq<Event>,
) -> nat
    decreases events.len(),
{
    if events.len() == 0 {
        0
    } else {
        (if emits_remove(cap, req, s, events[0]) {
            1nat
        } else {
            0nat
        }) + removes_during(cap, req, spec_next(cap, req, s, events[0]), events.drop_first())
    }
}

/// Whether the state records that a removal request has been emitted.
pub open spec fn removal_recorded(s: State) -> nat {
    match s {
        State::Removing { .. } => 1nat,
        State::Finished { cleanup: Cleanup::Attempted { .. }, .. } => 1nat,
        _ => 0nat,
    }
}

/// True while a created container exists and its removal has not yet been
/// confirmed or given up on.
pub open spec fn holds_container(s: State) -> bool {
    s is Copying || s is Writing || s is Removing
}

/// The removal requests a run emits are exactly the change in its removal
/// record.
pub proof fn lemma_removal_count<C: Container>(
    cap: C,
    req: ExtractionRequest,
    s: State,
    events: Seq<Event>,
)
    ensures
        removes_during(cap, req, s, events) + removal_recorded(s) == removal_recorded(
            spec_run(cap, req, s, events),
        ),
    decreases events.len(),
{
    if events.len() > 0 {
        lemma_removal_count(cap, req, spec_next(cap, req, s, events[0]), events.drop_first());
    }
}

/// The container is removed at most once: however a run goes, the machine
/// never emits more than one removal request from beginning to end.
pub proof fn lemma_remove_at_most_once<C: Container>(
    cap: C,
    req: ExtractionRequest,
    events: Seq<Event>,
)
    ensures
        removes_during(cap, req, State::Listing, events) <= 1,
{
    lemma_removal_count(cap, req, State::Listing, events);
}

/// The container is removed exactly once on every exit path: once a
/// container exists, a run either still holds it or has emitted exactly one
/// removal request by the time it finishes — and a run that finishes
/// without ever creating one emits none.
pub proof fn lemma_created_implies_cleanup<C: Container>(
    cap: C,
    req: ExtractionRequest,
    s: State,
    events: Seq<Event>,
)
    requires
        holds_container(s) || (s matches State::Finished { cleanup, .. } && cleanup is Attempted),
    ensures
        ({
            let f = spec_run(cap, req, s, events);
            holds_container(f) || (f matches State::Finished { cleanup, .. }
                && cleanup is Attempted)
        }),
    decreases events.len(),
{
    if events.len() > 0 {
        lemma_created_implies_cleanup(
            cap,
            req,
            spec_next(cap, req, s, events[0]),
            events.drop_first(),
        );
    }
}

/// A fault met before cleanup is the one surfaced: from a removing state
/// carrying a fault, either outcome of the removal finishes the run with
/// exactly that fault — a cleanup failure never masks it.
pub proof fn lemma_cleanup_preserves_fault<C: Container>(
    cap: C,
    req: ExtractionRequest,
    container: String,
    f: Fault,
    e: Event,
)
    requires
        compatible(State::Removing { container, failure: Some(f) }, e),
    ensures
        ({
            let n = spec_next(cap, req, State::Removing { container, failure: Some(f) }, e);
            &&& n matches State::Finished { outcome, cleanup }
            &&& outcome == Err::<(), Fault>(f)
            &&& cleanup is Attempted
        }),
{
}

/// A cleanup failure does not invalidate a completed extraction: from a
/// removing state with no pending fault, either outcome of the removal
/// finishes the run with overall success; whether the engine confirmed the
/// removal is only reported.
pub proof fn lemma_cleanup_failure_nonfatal<C: Container>(
    cap: C,
    req: ExtractionRequest,
    container: String,
    e: Event,
)
    requires
        compatible(State::Removing { container, failure: None }, e),
    ensures
        ({
            let n = spec_next(cap, req, State::Removing { container, failure: None }, e);
            &&& n matches State::Finished { outcome, cleanup }
            &&& outcome == Ok::<(), Fault>(())
            &&& (cleanup matches Cleanup::Attempted { removed } && removed == (e
                is RemoveFinished))
        }),
{
}

/// A pull is forced regardless of presence: with `force_pull` set, the
/// image-list outcome leads to the pull call even when the literal
/// reference appears among the reported tags.
pub proof fn lemma_force_pull_always_pulls<C: Container>(
    cap: C,
    req: ExtractionRequest,
    tags: Vec<String>,
)
    requires
        req.force_pull,
    ensures
        spec_next(cap, req, State::Listing, Event::ImagesListed { tags }) is Pulling,
{
}

/// The pull is an idempotent short-circuit: without `force_pull`, an image
/// whose literal reference appears among the reported tags is not pulled —
/// the machine moves straight to creation.
pub proof fn lemma_present_image_skips_pull<C: Container>(
    cap: C,
    req: ExtractionRequest,
    tags: Vec<String>,
)
    requires
        !req.force_pull,
        tag_listed(tags@, cap.image_ref()),
    ensures
        spec_next(cap, req, State::Listing, Event::ImagesListed { tags }) is Creating,
{
}

/// A copy failure after creation still cleans up: the step emits the
/// removal request, and records a missing content path as an extraction
/// fault and any other engine report as an engine fault, for surfacing once
/// removal has been attempted.
pub proof fn lemma_copy_failure_cleans_up<C: Container>(
    cap: C,
    req: ExtractionRequest,
    container: String,
    missing_path: bool,
    message: String,
)
    ensures
        ({
            let s = State::Copying { container };
            let e = Event::CopyFailed { missing_path, message };
            let n = spec_next(cap, req, s, e);
            &&& emits_remove(cap, req, s, e)
            &&& n matches State::Removing { failure: Some(fl), .. }
            &&& missing_path ==> fl == (Fault::Extraction {
                cause: ExtractionCause::MissingPath { message },
            })
            &&& !missing_path ==> fl == (Fault::Engine { op: Op::Copy, message })
        }),
{
}

} // verus!
