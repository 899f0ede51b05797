//! The two-phase injection pipeline.
//!
//! A `Pipeline` is the per-process protocol object behind the two
//! specialization callbacks. The unverified shell owns all real effects —
//! reading files, writing the staged artifact, loading it, unlinking it —
//! and drives this state machine: it hands each outcome in as an [`Event`]
//! and performs the [`Action`] the machine returns. Every decision (whether
//! the process is the target, what to stage where, whether cleanup is still
//! owed) is taken here and verified against [`step_model`], the mathematical
//! transition function.
//!
//! Per process the pipeline runs exactly once:
//! `Unloaded → AwaitingPayload → Buffered → Staging → Staged →
//! AwaitingCleanup → Loaded`, with the terminal `NoMatch` leaving `Unloaded`
//! when the identity check fails or no target is configured, and `Failed`
//! terminals on payload, staging or load errors. Every terminal is silent to
//! the host: the machine never demands an effect that could disturb the
//! specialized application.

use vstd::prelude::*;

use crate::bytes::{clone_bytes, contains_seq};
use crate::config::{parse_target_config, target_of_config};
use crate::identity::{resolve_process_name, resolved_name};
use crate::matching::{match_decision, matches_target, MatchPolicy};
use crate::state::{cell_write, InjectionState, StateModel};

verus! {

/// Why a pipeline run ended without a loaded payload.
#[derive(Clone, Copy, Debug, PartialEq, Eq, Structural)]
pub enum FailReason {
    /// The payload file was missing, unreadable or empty at buffering time.
    PayloadUnavailable,
    /// No data directory was available to stage into.
    EmptyDataDir,
    /// Creating or restricting the staged artifact failed; no load was
    /// attempted.
    WriteError,
    /// The dynamic loader rejected the staged image.
    LoadError,
}

/// Where the pipeline of one process stands.
#[derive(Clone, Copy, Debug, PartialEq, Eq, Structural)]
pub enum Phase {
    /// Fresh process: the privileged hook has not run yet.
    Unloaded,
    /// Terminal: the process is not the target, or no target is configured.
    NoMatch,
    /// The identity matched; the privileged payload read is pending.
    AwaitingPayload,
    /// The payload is buffered in memory; the sandboxed hook has not run yet.
    Buffered,
    /// The staging write is pending.
    Staging,
    /// The artifact is on disk with restricted permissions; the load is
    /// pending.
    Staged,
    /// The load finished (successfully or not); the cleanup unlink is still
    /// owed.
    AwaitingCleanup { loaded: bool },
    /// Terminal: the payload is mapped and removal of the artifact was
    /// attempted.
    Loaded,
    /// Terminal: the run was abandoned for the recorded reason.
    Failed(FailReason),
}

/// An outcome the shell reports back to the pipeline.
pub enum Event {
    /// The privileged hook runs. `config` holds the raw bytes of the
    /// configuration file (`None` when missing or unreadable, re-read fresh
    /// on every invocation), `runtime_name` the process name obtained from
    /// the managed runtime (empty when unavailable) and `data_dir` the
    /// process's private data directory (empty when unavailable).
    PreSpecialize { config: Option<Vec<u8>>, runtime_name: Vec<u8>, data_dir: Vec<u8> },
    /// The payload file was read during the privileged phase (`None` when
    /// missing or unreadable).
    PayloadRead { bytes: Option<Vec<u8>> },
    /// The sandboxed hook runs with the resolved data-directory path.
    PostSpecialize { data_dir: Vec<u8> },
    /// The staging write and permission restriction finished.
    StageWritten { ok: bool },
    /// The dynamic load finished.
    LoadFinished { ok: bool },
    /// The unlink of the staged artifact finished.
    Unlinked { ok: bool },
}

/// Mathematical image of an [`Event`].
#[verifier::ext_equal]
pub enum EventModel {
    PreSpecialize { config: Option<Seq<u8>>, runtime_name: Seq<u8>, data_dir: Seq<u8> },
    PayloadRead { bytes: Option<Seq<u8>> },
    PostSpecialize { data_dir: Seq<u8> },
    StageWritten { ok: bool },
    LoadFinished { ok: bool },
    Unlinked { ok: bool },
}

impl View for Event {
    type V = EventModel;

    open spec fn view(&self) -> EventModel {
        match self {
            Event::PreSpecialize { config, runtime_name, data_dir } => (EventModel::PreSpecialize {
                config: match config {
                    Some(c) => Some(c@),
                    None => None,
                },
                runtime_name: runtime_name@,
                data_dir: data_dir@,
            }),
            Event::PayloadRead { bytes } => (EventModel::PayloadRead {
                bytes: match bytes {
                    Some(b) => Some(b@),
                    None => None,
                },
            }),
            Event::PostSpecialize { data_dir } => (EventModel::PostSpecialize {
                data_dir: data_dir@,
            }),
            Event::StageWritten { ok } => (EventModel::StageWritten { ok: *ok }),
            Event::LoadFinished { ok } => (EventModel::LoadFinished { ok: *ok }),
            Event::Unlinked { ok } => (EventModel::Unlinked { ok: *ok }),
        }
    }
}

/// The effect the shell must perform next.
pub enum Action {
    /// Read the payload file and report the result as
    /// [`Event::PayloadRead`].
    ReadPayload,
    /// Write `bytes` to `path` (creating the cache subdirectory if absent),
    /// restrict the file to owner-only access before any load attempt, and
    /// report [`Event::StageWritten`].
    WriteArtifact { path: Vec<u8>, bytes: Vec<u8> },
    /// Load the file at `path` into the process address space and report
    /// [`Event::LoadFinished`].
    LoadArtifact { path: Vec<u8> },
    /// Unlink `path` and report [`Event::Unlinked`].
    RemoveArtifact { path: Vec<u8> },
    /// Nothing to perform.
    Idle,
}

/// Mathematical image of an [`Action`].
#[verifier::ext_equal]
pub enum ActionModel {
    ReadPayload,
    WriteArtifact { path: Seq<u8>, bytes: Seq<u8> },
    LoadArtifact { path: Seq<u8> },
    RemoveArtifact { path: Seq<u8> },
    Idle,
}

impl View for Action {
    type V = ActionModel;

    open spec fn view(&self) -> ActionModel {
        match self {
            Action::ReadPayload => ActionModel::ReadPayload,
            Action::WriteArtifact { path, bytes } => (ActionModel::WriteArtifact {
                path: path@,
                bytes: bytes@,
            }),
            Action::LoadArtifact { path } => (ActionModel::LoadArtifact { path: path@ }),
            Action::RemoveArtifact { path } => (ActionModel::RemoveArtifact { path: path@ }),
            Action::Idle => ActionModel::Idle,
        }
    }
}

/// The reserved file name of the staged artifact (`.zl-staged.so`): fixed
/// and owned by the loader, chosen not to collide with application-managed
/// cache entries.
pub open spec fn staged_file_name() -> Seq<u8> {
    seq![46u8, 122u8, 108u8, 45u8, 115u8, 116u8, 97u8, 103u8, 101u8, 100u8, 46u8, 115u8, 111u8]
}

/// The path separator plus `cache` subdirectory infix (`/cache/`).
pub open spec fn cache_infix() -> Seq<u8> {
    seq![47u8, 99u8, 97u8, 99u8, 104u8, 101u8, 47u8]
}

/// The staging path: the reserved artifact name inside the application's
/// private cache directory.
pub open spec fn staging_path(data_dir: Seq<u8>) -> Seq<u8> {
    data_dir + cache_infix() + staged_file_name()
}

/// Build the staging path for a data directory.
pub fn build_staging_path(data_dir: &Vec<u8>) -> (r: Vec<u8>)
    ensures
        r@ == staging_path(data_dir@),
{
    let mut r = clone_bytes(data_dir);
    r.push(47);
    r.push(99);
    r.push(97);
    r.push(99);
    r.push(104);
    r.push(101);
    r.push(47);
    r.push(46);
    r.push(122);
    r.push(108);
    r.push(45);
    r.push(115);
    r.push(116);
    r.push(97);
    r.push(103);
    r.push(101);
    r.push(100);
    r.push(46);
    r.push(115);
    r.push(111);
    proof {
        assert(r@ =~= staging_path(data_dir@));
    }
    r
}

/// Mathematical image of a [`Pipeline`].
#[verifier::ext_equal]
pub struct PipelineModel {
    pub policy: MatchPolicy,
    pub phase: Phase,
    pub state: StateModel,
    pub staging: Option<Seq<u8>>,
    pub artifact_exists: bool,
    pub cleanup_failed: bool,
}

/// The model of a fresh process: nothing decided, nothing buffered, nothing
/// on disk.
pub open spec fn init_model(policy: MatchPolicy) -> PipelineModel {
    PipelineModel {
        policy,
        phase: Phase::Unloaded,
        state: StateModel { matched: None, target: None, payload: None },
        staging: None,
        artifact_exists: false,
        cleanup_failed: false,
    }
}

/// The payload is buffered and carried: from `Buffered` up to the cleanup.
pub open spec fn carries_buffer(p: Phase) -> bool {
    p == Phase::Buffered || p == Phase::Staging || p == Phase::Staged || p is AwaitingCleanup
}

/// A staging path has been chosen.
pub open spec fn staging_chosen(p: Phase) -> bool {
    p == Phase::Staging || p == Phase::Staged || p is AwaitingCleanup
}

/// Well-formedness of a pipeline model. Among other things: the buffer
/// exists (non-empty, written once) in every phase that needs it; the staged
/// artifact exists on disk exactly between a successful staging write and
/// the cleanup unlink; and in the terminal phases after a load the artifact
/// is gone unless the cleanup itself was reported failed.
pub open spec fn inv_model(m: PipelineModel) -> bool {
    &&& m.phase == Phase::Unloaded ==> m.state == (StateModel {
        matched: None,
        target: None,
        payload: None,
    }) && m.staging is None
    &&& m.phase == Phase::AwaitingPayload ==> m.state.matched == Some(true) && (
    m.state.target matches Some(t) && t.len() > 0) && m.state.payload is None
    &&& carries_buffer(m.phase) ==> m.state.matched == Some(true) && (
    m.state.payload matches Some(b) && b.len() > 0)
    &&& staging_chosen(m.phase) ==> m.staging is Some
    &&& m.phase == Phase::Unloaded || m.phase == Phase::NoMatch || m.phase
        == Phase::AwaitingPayload || m.phase == Phase::Buffered || m.phase == Phase::Staging
        ==> !m.artifact_exists
    &&& m.phase == Phase::Failed(FailReason::PayloadUnavailable) || m.phase == Phase::Failed(
        FailReason::EmptyDataDir,
    ) || m.phase == Phase::Failed(FailReason::WriteError) ==> !m.artifact_exists
    &&& m.phase == Phase::Staged || m.phase is AwaitingCleanup ==> m.artifact_exists
    &&& m.phase == Phase::Loaded || m.phase == Phase::Failed(FailReason::LoadError)
        ==> m.artifact_exists == m.cleanup_failed
}

/// The transition function of the pipeline: from a model and an event to
/// the next model and the effect the shell owes. Events that do not belong
/// to the current phase change nothing and demand nothing, so a reentered
/// or out-of-order hook is a no-op.
pub open spec fn step_model(m: PipelineModel, ev: EventModel) -> (PipelineModel, ActionModel) {
    match ev {
        EventModel::PreSpecialize { config, runtime_name, data_dir } => {
            if m.phase != Phase::Unloaded {
                (m, ActionModel::Idle)
            } else {
                match config {
                    None => (
                        PipelineModel {
                            phase: Phase::NoMatch,
                            state: StateModel {
                                matched: cell_write(m.state.matched, false),
                                ..m.state
                            },
                            ..m
                        },
                        ActionModel::Idle,
                    ),
                    Some(raw) => {
                        let target = target_of_config(raw);
                        let name = resolved_name(runtime_name, data_dir);
                        let hit = match_decision(m.policy, name, target);
                        let written = StateModel {
                            matched: cell_write(m.state.matched, hit),
                            target: cell_write(m.state.target, target),
                            payload: m.state.payload,
                        };
                        if hit {
                            (
                                PipelineModel { phase: Phase::AwaitingPayload, state: written, ..m },
                                ActionModel::ReadPayload,
                            )
                        } else {
                            (
                                PipelineModel { phase: Phase::NoMatch, state: written, ..m },
                                ActionModel::Idle,
                            )
                        }
                    },
                }
            }
        },
        EventModel::PayloadRead { bytes } => {
            if m.phase != Phase::AwaitingPayload {
                (m, ActionModel::Idle)
            } else {
                match bytes {
                    None => (
                        PipelineModel { phase: Phase::Failed(FailReason::PayloadUnavailable), ..m },
                        ActionModel::Idle,
                    ),
                    Some(b) => (
                        PipelineModel {
                            phase: if b.len() > 0 {
                                Phase::Buffered
                            } else {
                                Phase::Failed(FailReason::PayloadUnavailable)
                            },
                            state: StateModel { payload: cell_write(m.state.payload, b), ..m.state },
                            ..m
                        },
                        ActionModel::Idle,
                    ),
                }
            }
        },
        EventModel::PostSpecialize { data_dir } => {
            if m.phase != Phase::Buffered {
                (m, ActionModel::Idle)
            } else if data_dir.len() == 0 {
                (
                    PipelineModel { phase: Phase::Failed(FailReason::EmptyDataDir), ..m },
                    ActionModel::Idle,
                )
            } else {
                (
                    PipelineModel {
                        phase: Phase::Staging,
                        staging: Some(staging_path(data_dir)),
                        ..m
                    },
                    ActionModel::WriteArtifact {
                        path: staging_path(data_dir),
                        bytes: m.state.payload->0,
                    },
                )
            }
        },
        EventModel::StageWritten { ok } => {
            if m.phase != Phase::Staging {
                (m, ActionModel::Idle)
            } else if ok {
                (
                    PipelineModel { phase: Phase::Staged, artifact_exists: true, ..m },
                    ActionModel::LoadArtifact { path: m.staging->0 },
                )
            } else {
                (
                    PipelineModel { phase: Phase::Failed(FailReason::WriteError), ..m },
                    ActionModel::Idle,
                )
            }
        },
        EventModel::LoadFinished { ok } => {
            if m.phase != Phase::Staged {
                (m, ActionModel::Idle)
            } else {
                (
                    PipelineModel { phase: Phase::AwaitingCleanup { loaded: ok }, ..m },
                    ActionModel::RemoveArtifact { path: m.staging->0 },
                )
            }
        },
        EventModel::Unlinked { ok } => {
            match m.phase {
                Phase::AwaitingCleanup { loaded } => (
                    PipelineModel {
                        phase: if loaded {
                            Phase::Loaded
                        } else {
                            Phase::Failed(FailReason::LoadError)
                        },
                        artifact_exists: if ok {
                            false
                        } else {
                            m.artifact_exists
                        },
                        cleanup_failed: !ok,
                        ..m
                    },
                    ActionModel::Idle,
                ),
                _ => (m, ActionModel::Idle),
            }
        },
    }
}

/// Every step keeps a pipeline well-formed: `inv_model` is an invariant of
/// the transition system, whatever event the shell reports.
pub proof fn lemma_step_preserves_inv(m: PipelineModel, ev: EventModel)
    requires
        inv_model(m),
    ensures
        inv_model(step_model(m, ev).0),
{
}

/// The engine proceeds to buffer (and later stage) a payload if and only if
/// the resolved process name contains the configured target as a substring
/// and the target is non-empty — under the default substring policy, for
/// every configuration text and every resolved name.
pub proof fn lemma_match_iff_substring(
    m: PipelineModel,
    raw: Seq<u8>,
    runtime_name: Seq<u8>,
    data_dir: Seq<u8>,
)
    requires
        m.phase == Phase::Unloaded,
        m.policy == MatchPolicy::Substring,
    ensures
        ({
            let ev = EventModel::PreSpecialize {
                config: Some(raw),
                runtime_name,
                data_dir,
            };
            let target = target_of_config(raw);
            let name = resolved_name(runtime_name, data_dir);
            let proceeds = target.len() > 0 && contains_seq(name, target);
            &&& step_model(m, ev).1 == ActionModel::ReadPayload <==> proceeds
            &&& step_model(m, ev).0.phase == Phase::AwaitingPayload <==> proceeds
            &&& !proceeds ==> step_model(m, ev).0.phase == Phase::NoMatch
        }),
{
}

/// An empty configured target never matches, whatever the process name.
pub proof fn lemma_empty_target_never_matches(policy: MatchPolicy, name: Seq<u8>, target: Seq<u8>)
    requires
        target.len() == 0,
    ensures
        !match_decision(policy, name, target),
{
}

/// With no configuration present the pipeline reaches `NoMatch` silently:
/// no failure phase, nothing demanded of the shell.
pub proof fn lemma_no_config_reaches_no_match(
    m: PipelineModel,
    runtime_name: Seq<u8>,
    data_dir: Seq<u8>,
)
    requires
        m.phase == Phase::Unloaded,
    ensures
        ({
            let ev = EventModel::PreSpecialize { config: None, runtime_name, data_dir };
            &&& step_model(m, ev).0.phase == Phase::NoMatch
            &&& step_model(m, ev).1 == ActionModel::Idle
        }),
{
}

/// Reentering the privileged hook after the pipeline has left `Unloaded`
/// changes nothing and demands nothing: the decision and the buffer are
/// write-once per process.
pub proof fn lemma_pre_specialize_reentry(m: PipelineModel, ev: EventModel)
    requires
        m.phase != Phase::Unloaded,
        ev is PreSpecialize,
    ensures
        step_model(m, ev) == (m, ActionModel::Idle),
{
}

/// A payload that cannot be read aborts the run before `Buffered`: the
/// pipeline ends in `Failed(PayloadUnavailable)` and never demands a staging
/// write or a load.
pub proof fn lemma_missing_payload_aborts(m: PipelineModel)
    requires
        m.phase == Phase::AwaitingPayload,
    ensures
        ({
            let ev = EventModel::PayloadRead { bytes: None };
            &&& step_model(m, ev).0.phase == Phase::Failed(FailReason::PayloadUnavailable)
            &&& step_model(m, ev).1 == ActionModel::Idle
        }),
{
}

/// Whatever the load outcome, the very next demand after `LoadFinished` is
/// the removal of the staged artifact: cleanup is never skipped.
pub proof fn lemma_cleanup_always_demanded(m: PipelineModel, ok: bool)
    requires
        m.phase == Phase::Staged,
    ensures
        ({
            let ev = EventModel::LoadFinished { ok };
            &&& step_model(m, ev).1 == (ActionModel::RemoveArtifact { path: m.staging->0 })
            &&& step_model(m, ev).0.phase == (Phase::AwaitingCleanup { loaded: ok })
        }),
{
}

/// After a successful load and a successful unlink the run is terminal
/// `Loaded` and the staged artifact no longer exists, while the in-memory
/// mapping (the load handle) stays with the process.
pub proof fn lemma_loaded_leaves_no_artifact(m: PipelineModel)
    requires
        m.phase == (Phase::AwaitingCleanup { loaded: true }),
    ensures
        ({
            let m2 = step_model(m, EventModel::Unlinked { ok: true }).0;
            &&& m2.phase == Phase::Loaded
            &&& !m2.artifact_exists
            &&& !m2.cleanup_failed
        }),
{
}

/// A failed load still removes the artifact: from `Staged`, a load failure
/// demands the unlink, and once the unlink succeeds the run ends in
/// `Failed(LoadError)` with no artifact left on disk.
pub proof fn lemma_failed_load_still_cleans(m: PipelineModel)
    requires
        m.phase == Phase::Staged,
    ensures
        ({
            let (m1, a1) = step_model(m, EventModel::LoadFinished { ok: false });
            let (m2, a2) = step_model(m1, EventModel::Unlinked { ok: true });
            &&& a1 == (ActionModel::RemoveArtifact { path: m.staging->0 })
            &&& m2.phase == Phase::Failed(FailReason::LoadError)
            &&& !m2.artifact_exists
            &&& a2 == ActionModel::Idle
        }),
{
}

/// The bytes the pipeline orders written to the staging path are exactly
/// the payload bytes it buffered, byte for byte, and the load is demanded
/// from that same path.
pub proof fn lemma_staged_bytes_are_the_buffer(m: PipelineModel, b: Seq<u8>, data_dir: Seq<u8>)
    requires
        inv_model(m),
        m.phase == Phase::AwaitingPayload,
        b.len() > 0,
        data_dir.len() > 0,
    ensures
        ({
            let (m1, _) = step_model(m, EventModel::PayloadRead { bytes: Some(b) });
            let (m2, act) = step_model(m1, EventModel::PostSpecialize { data_dir });
            &&& m1.phase == Phase::Buffered
            &&& act == (ActionModel::WriteArtifact { path: staging_path(data_dir), bytes: b })
            &&& step_model(m2, EventModel::StageWritten { ok: true }).1 == (
            ActionModel::LoadArtifact { path: staging_path(data_dir) })
        }),
{
}

/// The per-process protocol object behind the two specialization callbacks.
pub struct Pipeline {
    policy: MatchPolicy,
    phase: Phase,
    state: InjectionState,
    staging: Option<Vec<u8>>,
    artifact_exists: bool,
    cleanup_failed: bool,
}

impl View for Pipeline {
    type V = PipelineModel;

    closed spec fn view(&self) -> PipelineModel {
        PipelineModel {
            policy: self.policy,
            phase: self.phase,
            state: self.state@,
            staging: match self.staging {
                Some(p) => Some(p@),
                None => None,
            },
            artifact_exists: self.artifact_exists,
            cleanup_failed: self.cleanup_failed,
        }
    }
}

impl Pipeline {
    /// A fresh pipeline with the default substring matching policy.
    pub fn new() -> (p: Pipeline)
        ensures
            p@ == init_model(MatchPolicy::Substring),
            inv_model(p@),
    {
        Pipeline::with_policy(MatchPolicy::Substring)
    }

    /// A fresh pipeline with an explicit matching policy.
    pub fn with_policy(policy: MatchPolicy) -> (p: Pipeline)
        ensures
            p@ == init_model(policy),
            inv_model(p@),
    {
        Pipeline {
            policy,
            phase: Phase::Unloaded,
            state: InjectionState::new(),
            staging: None,
            artifact_exists: false,
            cleanup_failed: false,
        }
    }

    /// The phase the pipeline stands in.
    pub fn current_phase(&self) -> (r: Phase)
        ensures
            r == self@.phase,
    {
        self.phase
    }

    /// The chosen matching policy.
    pub fn policy(&self) -> (r: MatchPolicy)
        ensures
            r == self@.policy,
    {
        self.policy
    }

    /// Whether, per the reported outcomes, the staged artifact currently has
    /// a directory entry.
    pub fn artifact_present(&self) -> (r: bool)
        ensures
            r == self@.artifact_exists,
    {
        self.artifact_exists
    }

    /// Whether the cleanup unlink was reported failed (non-fatal).
    pub fn had_cleanup_failure(&self) -> (r: bool)
        ensures
            r == self@.cleanup_failed,
    {
        self.cleanup_failed
    }

    /// The recorded match decision.
    pub fn match_result(&self) -> (r: Option<bool>)
        ensures
            r == self@.state.matched,
    {
        self.state.matched()
    }

    /// Advance the pipeline by one event and return the effect the shell
    /// must perform next. Total: every event in every phase has a defined,
    /// harmless outcome. The well-formedness demanded of the pipeline holds
    /// of every value the public constructors and `step` itself produce, so
    /// a caller that stays on this interface always meets it.
    pub fn step(&mut self, ev: Event) -> (act: Action)
        requires
            inv_model(old(self)@),
        ensures
            final(self)@ == step_model(old(self)@, ev@).0,
            act@ == step_model(old(self)@, ev@).1,
            inv_model(final(self)@),
    {
        match ev {
            Event::PreSpecialize { config, runtime_name, data_dir } => {
                if self.phase != Phase::Unloaded {
                    return Action::Idle;
                }
                match config {
                    None => {
                        self.state.set_matched(false);
                        self.phase = Phase::NoMatch;
                        Action::Idle
                    },
                    Some(raw) => {
                        let target = parse_target_config(&raw);
                        let name = resolve_process_name(&runtime_name, &data_dir);
                        let hit = matches_target(self.policy, &name, &target);
                        self.state.set_matched(hit);
                        self.state.set_target(target);
                        if hit {
                            self.phase = Phase::AwaitingPayload;
                            Action::ReadPayload
                        } else {
                            self.phase = Phase::NoMatch;
                            Action::Idle
                        }
                    },
                }
            },
            Event::PayloadRead { bytes } => {
                if self.phase != Phase::AwaitingPayload {
                    return Action::Idle;
                }
                match bytes {
                    None => {
                        self.phase = Phase::Failed(FailReason::PayloadUnavailable);
                        Action::Idle
                    },
                    Some(b) => {
                        let empty = b.len() == 0;
                        self.state.set_payload(b);
                        self.phase = if empty {
                            Phase::Failed(FailReason::PayloadUnavailable)
                        } else {
                            Phase::Buffered
                        };
                        Action::Idle
                    },
                }
            },
            Event::PostSpecialize { data_dir } => {
                if self.phase != Phase::Buffered {
                    return Action::Idle;
                }
                if data_dir.len() == 0 {
                    self.phase = Phase::Failed(FailReason::EmptyDataDir);
                    Action::Idle
                } else {
                    let path = build_staging_path(&data_dir);
                    let bytes = match self.state.payload_ref() {
                        Some(p) => clone_bytes(p),
                        None => {
                            proof {
                                assert(false);
                            }
                            Vec::new()
                        },
                    };
                    self.staging = Some(clone_bytes(&path));
                    self.phase = Phase::Staging;
                    Action::WriteArtifact { path, bytes }
                }
            },
            Event::StageWritten { ok } => {
                if self.phase != Phase::Staging {
                    return Action::Idle;
                }
                if ok {
                    self.artifact_exists = true;
                    self.phase = Phase::Staged;
                    let path = match &self.staging {
                        Some(p) => clone_bytes(p),
                        None => {
                            proof {
                                assert(false);
                            }
                            Vec::new()
                        },
                    };
                    Action::LoadArtifact { path }
                } else {
                    self.phase = Phase::Failed(FailReason::WriteError);
                    Action::Idle
                }
            },
            Event::LoadFinished { ok } => {
                if self.phase != Phase::Staged {
                    return Action::Idle;
                }
                self.phase = Phase::AwaitingCleanup { loaded: ok };
                let path = match &self.staging {
                    Some(p) => clone_bytes(p),
                    None => {
                        proof {
                            assert(false);
                        }
                        Vec::new()
                    },
                };
                Action::RemoveArtifact { path }
            },
            Event::Unlinked { ok } => {
                match self.phase {
                    Phase::AwaitingCleanup { loaded } => {
                        if ok {
                            self.artifact_exists = false;
                        }
                        self.cleanup_failed = !ok;
                        self.phase = if loaded {
                            Phase::Loaded
                        } else {
                            Phase::Failed(FailReason::LoadError)
                        };
                        Action::Idle
                    },
                    _ => Action::Idle,
                }
            },
        }
    }
}

} // verus!

