//! The per-job pipeline: a linear state machine from an accepted request to
//! a reported outcome. The pipeline decides; its surroundings perform the
//! outside work (directory lookup, engine rendering, file staging, the
//! print command, cleanup) and report each result back as an event. A ghost
//! record of the requested effects carries the pipeline's guarantees: a
//! refused printer causes no work, every staged artifact is removed, and a
//! `pdf` job stages exactly the decoded content.

use vstd::prelude::*;
use crate::artifact::{get_temporary_file_path, is_temp_path_in};
use crate::render::{JobFormat, RenderFailure, RenderPlan, b64_decoded, plan_for, plan_render,
render_pdf};

verus! {

/// One print job as accepted at the endpoint. The content's meaning depends
/// on the format; the token matters only for `url` jobs, empty meaning absent.
pub struct PrintJobRequest {
    pub printer_name: String,
    pub content: String,
    pub format: JobFormat,
    pub auth_token: String,
}

/// Why a job failed.
#[derive(Debug, PartialEq)]
pub enum PipelineError {
    PrinterNotFound,
    RenderingFailed(RenderFailure),
    StagingFailed,
    DispatchFailed(String),
}

/// A finished job's report.
#[derive(Debug, PartialEq)]
pub enum JobOutcome {
    Accepted,
    Failed(PipelineError),
}

/// Where a job stands in the linear pipeline.
#[derive(Debug, PartialEq)]
pub enum JobPhase {
    Received,
    Rendering,
    Staging { path: String },
    Dispatching { path: String },
    Cleaning { path: String, pending: JobOutcome },
    Done { outcome: JobOutcome },
}

/// What the pipeline asks its surroundings to do next.
#[derive(Debug, PartialEq)]
pub enum JobAction {
    LookupPrinter { printer_name: String },
    RenderDocument { plan: RenderPlan },
    StageArtifact { bytes: Vec<u8>, path: String },
    DispatchArtifact { path: String, printer_name: String },
    RemoveArtifact { path: String },
    Report { outcome: JobOutcome },
}

/// What the surroundings report back after performing an action.
#[derive(Debug, PartialEq)]
pub enum JobEvent {
    PrinterLookup { exists: bool },
    RenderDone { result: Result<Vec<u8>, RenderFailure> },
    StageDone { ok: bool },
    DispatchDone { exit_success: bool, diagnostic: String },
    CleanupDone,
}

/// Ghost record of one requested outside effect.
pub enum Effect {
    RenderRequested,
    Staged(Seq<u8>, Seq<char>),
    Dispatched(Seq<char>, Seq<char>),
    Removed(Seq<char>),
}

/// Every staged artifact is later removed.
pub open spec fn all_staged_removed(h: Seq<Effect>) -> bool {
    forall|i: int|
        0 <= i < h.len() ==> ((#[trigger] h[i]) matches Effect::Staged(b, p) ==> exists|j: int|
            i < j < h.len() && h[j] == Effect::Removed(p))
}

/// One job's pipeline, together with the ghost record of what it asked for.
pub struct JobMachine {
    pub job: PrintJobRequest,
    pub temp_dir: String,
    pub phase: JobPhase,
    pub effects: Ghost<Seq<Effect>>,
    pub rendered: Ghost<Option<Seq<u8>>>,
    pub staged_path: Ghost<Option<Seq<char>>>,
}

impl JobMachine {
    /// Effects of the rendering stage: none for `pdf` (a pure decode), one
    /// engine request for the other formats.
    pub open spec fn render_effects(self) -> Seq<Effect> {
        if self.job.format is Pdf {
            Seq::<Effect>::empty()
        } else {
            Seq::<Effect>::empty().push(Effect::RenderRequested)
        }
    }

    /// The effects once an artifact is staged.
    pub open spec fn staged_effects(self, b: Seq<u8>, p: Seq<char>) -> Seq<Effect> {
        self.render_effects().push(Effect::Staged(b, p))
    }

    /// The effects once the staged artifact is handed to the print command.
    pub open spec fn dispatched_effects(self, b: Seq<u8>, p: Seq<char>) -> Seq<Effect> {
        self.staged_effects(b, p).push(Effect::Dispatched(p, self.job.printer_name@))
    }

    /// Well-formedness: the phase agrees with the ghost record of requested
    /// effects and with the ghost rendering and staging data.
    pub open spec fn wf(self) -> bool {
        match self.phase {
            JobPhase::Received => self.effects@ == Seq::<Effect>::empty() && self.rendered@ is None
                && self.staged_path@ is None,
            JobPhase::Rendering => !(self.job.format is Pdf) && self.effects@
                == self.render_effects() && self.rendered@ is None && self.staged_path@ is None,
            JobPhase::Staging { path } => (match (self.rendered@, self.staged_path@) {
                (Some(b), Some(p)) => p == path@ && self.effects@ == self.staged_effects(b, p),
                _ => false,
            }),
            JobPhase::Dispatching { path } => (match (self.rendered@, self.staged_path@) {
                (Some(b), Some(p)) => p == path@ && self.effects@ == self.dispatched_effects(b, p),
                _ => false,
            }),
            JobPhase::Cleaning { path, pending } => (match (self.rendered@, self.staged_path@) {
                (Some(b), Some(p)) => p == path@ && (match pending {
                    JobOutcome::Failed(PipelineError::StagingFailed) => self.effects@
                        == self.staged_effects(b, p).push(Effect::Removed(p)),
                    JobOutcome::Accepted => self.effects@ == self.dispatched_effects(b, p).push(
                        Effect::Removed(p),
                    ),
                    JobOutcome::Failed(PipelineError::DispatchFailed(_)) => self.effects@
                        == self.dispatched_effects(b, p).push(Effect::Removed(p)),
                    _ => false,
                }),
                _ => false,
            }),
            JobPhase::Done { outcome } => (match outcome {
                JobOutcome::Failed(PipelineError::PrinterNotFound) => self.effects@
                    == Seq::<Effect>::empty() && self.staged_path@ is None,
                JobOutcome::Failed(PipelineError::RenderingFailed(_)) => self.effects@
                    == self.render_effects() && self.staged_path@ is None,
                JobOutcome::Failed(PipelineError::StagingFailed) => (match (
                    self.rendered@,
                    self.staged_path@,
                ) {
                    (Some(b), Some(p)) => self.effects@ == self.staged_effects(b, p).push(
                        Effect::Removed(p),
                    ),
                    _ => false,
                }),
                JobOutcome::Accepted => (match (self.rendered@, self.staged_path@) {
                    (Some(b), Some(p)) => self.effects@ == self.dispatched_effects(b, p).push(
                        Effect::Removed(p),
                    ),
                    _ => false,
                }),
                JobOutcome::Failed(PipelineError::DispatchFailed(_)) => (match (
                    self.rendered@,
                    self.staged_path@,
                ) {
                    (Some(b), Some(p)) => self.effects@ == self.dispatched_effects(b, p).push(
                        Effect::Removed(p),
                    ),
                    _ => false,
                }),
            }),
        }
    }

    /// For a `pdf` job, whatever was rendered is exactly the base64 decoding
    /// of the request content.
    pub open spec fn content_faithful(self) -> bool {
        self.job.format is Pdf ==> (match self.rendered@ {
            Some(b) => b64_decoded(self.job.content@) == Some(b),
            None => true,
        })
    }

    /// The event the pipeline awaits in its current phase.
    pub open spec fn expects(self, ev: JobEvent) -> bool {
        match (self.phase, ev) {
            (JobPhase::Received, JobEvent::PrinterLookup { .. }) => true,
            (JobPhase::Rendering, JobEvent::RenderDone { .. }) => true,
            (JobPhase::Staging { .. }, JobEvent::StageDone { .. }) => true,
            (JobPhase::Dispatching { .. }, JobEvent::DispatchDone { .. }) => true,
            (JobPhase::Cleaning { .. }, JobEvent::CleanupDone) => true,
            _ => false,
        }
    }

    /// Whether `ev` is the event this pipeline awaits now.
    pub fn accepts(&self, ev: &JobEvent) -> (r: bool)
        ensures
            r == self.expects(*ev),
    {
        match (&self.phase, ev) {
            (JobPhase::Received, JobEvent::PrinterLookup { .. }) => true,
            (JobPhase::Rendering, JobEvent::RenderDone { .. }) => true,
            (JobPhase::Staging { .. }, JobEvent::StageDone { .. }) => true,
            (JobPhase::Dispatching { .. }, JobEvent::DispatchDone { .. }) => true,
            (JobPhase::Cleaning { .. }, JobEvent::CleanupDone) => true,
            _ => false,
        }
    }

    /// Accept a job: the pipeline first asks for a printer-directory lookup,
    /// queried fresh for this job.
    pub fn start(job: PrintJobRequest, temp_dir: String) -> (r: (JobMachine, JobAction))
        ensures
            r.0.wf(),
            r.0.content_faithful(),
            r.0.phase is Received,
            r.0.job == job,
            r.0.temp_dir == temp_dir,
            (match r.1 {
                JobAction::LookupPrinter { printer_name } => printer_name@ == job.printer_name@,
                _ => false,
            }),
    {
        let action = JobAction::LookupPrinter { printer_name: job.printer_name.clone() };
        let m = JobMachine {
            job,
            temp_dir,
            phase: JobPhase::Received,
            effects: Ghost(Seq::empty()),
            rendered: Ghost(None),
            staged_path: Ghost(None),
        };
        (m, action)
    }

    /// Drive the pipeline by one event; returns the next requested action.
    pub fn step(&mut self, ev: JobEvent) -> (act: JobAction)
        requires
            old(self).wf(),
            old(self).content_faithful(),
            old(self).expects(ev),
        ensures
            final(self).wf(),
            final(self).content_faithful(),
            final(self).job == old(self).job,
            final(self).temp_dir == old(self).temp_dir,
            step_rel(*old(self), ev, *final(self), act),
    {
        let mut ph = JobPhase::Received;
        core::mem::swap(&mut ph, &mut self.phase);
        match (ph, ev) {
            (JobPhase::Received, JobEvent::PrinterLookup { exists }) => {
                if !exists {
                    self.phase = JobPhase::Done {
                        outcome: JobOutcome::Failed(PipelineError::PrinterNotFound),
                    };
                    JobAction::Report { outcome: JobOutcome::Failed(PipelineError::PrinterNotFound) }
                } else {
                    match self.job.format {
                        JobFormat::Pdf => {
                            match render_pdf(self.job.content.as_str()) {
                                Ok(bytes) => {
                                    let path = get_temporary_file_path(self.temp_dir.as_str());
                                    self.rendered = Ghost(Some(bytes@));
                                    self.staged_path = Ghost(Some(path@));
                                    self.effects = Ghost(
                                        self.effects@.push(Effect::Staged(bytes@, path@)),
                                    );
                                    self.phase = JobPhase::Staging { path: path.clone() };
                                    JobAction::StageArtifact { bytes, path }
                                },
                                Err(f) => {
                                    self.phase = JobPhase::Done {
                                        outcome: JobOutcome::Failed(PipelineError::RenderingFailed(f)),
                                    };
                                    JobAction::Report {
                                        outcome: JobOutcome::Failed(PipelineError::RenderingFailed(f)),
                                    }
                                },
                            }
                        },
                        _ => {
                            match plan_render(
                                self.job.format,
                                self.job.content.as_str(),
                                self.job.auth_token.as_str(),
                            ) {
                                Some(plan) => {
                                    self.effects = Ghost(self.effects@.push(Effect::RenderRequested));
                                    self.phase = JobPhase::Rendering;
                                    JobAction::RenderDocument { plan }
                                },
                                None => vstd::pervasive::unreached(),
                            }
                        },
                    }
                }
            },
            (JobPhase::Rendering, JobEvent::RenderDone { result }) => {
                match result {
                    Ok(bytes) => {
                        let path = get_temporary_file_path(self.temp_dir.as_str());
                        self.rendered = Ghost(Some(bytes@));
                        self.staged_path = Ghost(Some(path@));
                        self.effects = Ghost(self.effects@.push(Effect::Staged(bytes@, path@)));
                        self.phase = JobPhase::Staging { path: path.clone() };
                        JobAction::StageArtifact { bytes, path }
                    },
                    Err(f) => {
                        self.phase = JobPhase::Done {
                            outcome: JobOutcome::Failed(PipelineError::RenderingFailed(f)),
                        };
                        JobAction::Report {
                            outcome: JobOutcome::Failed(PipelineError::RenderingFailed(f)),
                        }
                    },
                }
            },
            (JobPhase::Staging { path }, JobEvent::StageDone { ok }) => {
                if ok {
                    self.effects = Ghost(
                        self.effects@.push(Effect::Dispatched(path@, self.job.printer_name@)),
                    );
                    self.phase = JobPhase::Dispatching { path: path.clone() };
                    JobAction::DispatchArtifact {
                        path,
                        printer_name: self.job.printer_name.clone(),
                    }
                } else {
                    self.effects = Ghost(self.effects@.push(Effect::Removed(path@)));
                    self.phase = JobPhase::Cleaning {
                        path: path.clone(),
                        pending: JobOutcome::Failed(PipelineError::StagingFailed),
                    };
                    JobAction::RemoveArtifact { path }
                }
            },
            (JobPhase::Dispatching { path }, JobEvent::DispatchDone { exit_success, diagnostic }) => {
                let pending = if exit_success {
                    JobOutcome::Accepted
                } else {
                    JobOutcome::Failed(PipelineError::DispatchFailed(diagnostic))
                };
                self.effects = Ghost(self.effects@.push(Effect::Removed(path@)));
                self.phase = JobPhase::Cleaning { path: path.clone(), pending };
                JobAction::RemoveArtifact { path }
            },
            (JobPhase::Cleaning { path: _, pending }, JobEvent::CleanupDone) => {
                let report = clone_outcome(&pending);
                self.phase = JobPhase::Done { outcome: pending };
                JobAction::Report { outcome: report }
            },
            _ => vstd::pervasive::unreached(),
        }
    }
}

/// An outcome's exact copy.
fn clone_outcome(o: &JobOutcome) -> (r: JobOutcome)
    ensures
        r == *o,
{
    match o {
        JobOutcome::Accepted => JobOutcome::Accepted,
        JobOutcome::Failed(e) => JobOutcome::Failed(
            match e {
                PipelineError::PrinterNotFound => PipelineError::PrinterNotFound,
                PipelineError::RenderingFailed(f) => PipelineError::RenderingFailed(*f),
                PipelineError::StagingFailed => PipelineError::StagingFailed,
                PipelineError::DispatchFailed(d) => PipelineError::DispatchFailed(d.clone()),
            },
        ),
    }
}

/// The pipeline's transition relation: how one awaited event advances the
/// machine and which action it emits.
pub open spec fn step_rel(pre: JobMachine, ev: JobEvent, post: JobMachine, act: JobAction) -> bool {
    match (pre.phase, ev) {
        (JobPhase::Received, JobEvent::PrinterLookup { exists }) => {
            if !exists {
                &&& post.phase == (JobPhase::Done {
                    outcome: JobOutcome::Failed(PipelineError::PrinterNotFound),
                })
                &&& act == (JobAction::Report {
                    outcome: JobOutcome::Failed(PipelineError::PrinterNotFound),
                })
            } else {
                match pre.job.format {
                    JobFormat::Pdf => (match b64_decoded(pre.job.content@) {
                        Some(bytes) => (match (post.phase, act) {
                            (
                                JobPhase::Staging { path },
                                JobAction::StageArtifact { bytes: ab, path: ap },
                            ) => ab@ == bytes && ap@ == path@ && is_temp_path_in(
                                pre.temp_dir@,
                                path@,
                            ),
                            _ => false,
                        }),
                        None => {
                            &&& post.phase == (JobPhase::Done {
                                outcome: JobOutcome::Failed(
                                    PipelineError::RenderingFailed(RenderFailure::InvalidEncoding),
                                ),
                            })
                            &&& act == (JobAction::Report {
                                outcome: JobOutcome::Failed(
                                    PipelineError::RenderingFailed(RenderFailure::InvalidEncoding),
                                ),
                            })
                        },
                    }),
                    _ => (match act {
                        JobAction::RenderDocument { plan } => post.phase is Rendering && plan_for(
                            pre.job.format,
                            pre.job.content@,
                            pre.job.auth_token@,
                            plan,
                        ),
                        _ => false,
                    }),
                }
            }
        },
        (JobPhase::Rendering, JobEvent::RenderDone { result }) => (match result {
            Ok(bytes) => (match (post.phase, act) {
                (JobPhase::Staging { path }, JobAction::StageArtifact { bytes: ab, path: ap }) => ab@
                    == bytes@ && ap@ == path@ && is_temp_path_in(pre.temp_dir@, path@),
                _ => false,
            }),
            Err(f) => {
                &&& post.phase == (JobPhase::Done {
                    outcome: JobOutcome::Failed(PipelineError::RenderingFailed(f)),
                })
                &&& act == (JobAction::Report {
                    outcome: JobOutcome::Failed(PipelineError::RenderingFailed(f)),
                })
            },
        }),
        (JobPhase::Staging { path }, JobEvent::StageDone { ok }) => {
            if ok {
                match (post.phase, act) {
                    (
                        JobPhase::Dispatching { path: p2 },
                        JobAction::DispatchArtifact { path: ap, printer_name: an },
                    ) => p2@ == path@ && ap@ == path@ && an@ == pre.job.printer_name@,
                    _ => false,
                }
            } else {
                match (post.phase, act) {
                    (
                        JobPhase::Cleaning { path: p2, pending },
                        JobAction::RemoveArtifact { path: ap },
                    ) => p2@ == path@ && ap@ == path@ && pending == JobOutcome::Failed(
                        PipelineError::StagingFailed,
                    ),
                    _ => false,
                }
            }
        },
        (JobPhase::Dispatching { path }, JobEvent::DispatchDone { exit_success, diagnostic }) => (
        match (post.phase, act) {
            (JobPhase::Cleaning { path: p2, pending }, JobAction::RemoveArtifact { path: ap }) => {
                &&& p2@ == path@
                &&& ap@ == path@
                &&& (if exit_success {
                    pending == JobOutcome::Accepted
                } else {
                    match pending {
                        JobOutcome::Failed(PipelineError::DispatchFailed(d)) => d@ == diagnostic@,
                        _ => false,
                    }
                })
            },
            _ => false,
        }),
        (JobPhase::Cleaning { path: _, pending }, JobEvent::CleanupDone) => (match (
            post.phase,
            act,
        ) {
            (JobPhase::Done { outcome }, JobAction::Report { outcome: ro }) => outcome == pending
                && ro == pending,
            _ => false,
        }),
        _ => false,
    }
}

/// The machine a job starts in: the lookup not yet answered, nothing
/// requested, nothing rendered.
pub open spec fn is_initial_machine(m: JobMachine, job: PrintJobRequest, temp_dir: String) -> bool {
    &&& m.job == job
    &&& m.temp_dir == temp_dir
    &&& m.phase == JobPhase::Received
    &&& m.effects@ == Seq::<Effect>::empty()
    &&& m.rendered@ is None
    &&& m.staged_path@ is None
}

/// The fold of the transition relation over a recorded event sequence:
/// each awaited event advances the machine by one `step_rel` transition and
/// emits the next action, in order; an event the machine does not await is
/// dropped and emits nothing.
pub open spec fn replay_rel(
    m0: JobMachine,
    evs: Seq<JobEvent>,
    mn: JobMachine,
    acts: Seq<JobAction>,
) -> bool
    decreases evs.len(),
{
    if evs.len() == 0 {
        mn == m0 && acts.len() == 0
    } else {
        let ev = evs.last();
        (exists|mp: JobMachine|
            {
                &&& replay_rel(m0, evs.drop_last(), mp, acts)
                &&& !(#[trigger] mp.expects(ev))
                &&& mn == mp
            }) || (acts.len() > 0 && exists|mp: JobMachine|
            {
                &&& replay_rel(m0, evs.drop_last(), mp, acts.drop_last())
                &&& #[trigger] mp.expects(ev)
                &&& step_rel(mp, ev, mn, acts.last())
            })
    }
}

/// For a `pdf` job, every artifact the pipeline staged carries exactly the
/// base64 decoding of the request content.
pub open spec fn pdf_staging_exact(m: JobMachine) -> bool {
    forall|i: int|
        0 <= i < m.effects@.len() ==> ((#[trigger] m.effects@[i]) matches Effect::Staged(b, p)
            ==> Some(b) == b64_decoded(m.job.content@))
}

/// A record whose entries are all engine requests stages nothing.
proof fn lemma_no_staged(h: Seq<Effect>)
    requires
        forall|i: int| 0 <= i < h.len() ==> #[trigger] h[i] == Effect::RenderRequested,
    ensures
        all_staged_removed(h),
{
}

/// A record that stages once and removes that path last removes everything
/// it staged.
proof fn lemma_clean_shape(
    h: Seq<Effect>,
    base: Seq<Effect>,
    b: Seq<u8>,
    p: Seq<char>,
    mid: Seq<Effect>,
)
    requires
        forall|i: int| 0 <= i < base.len() ==> #[trigger] base[i] == Effect::RenderRequested,
        forall|i: int| 0 <= i < mid.len() ==> !((#[trigger] mid[i]) matches Effect::Staged(..)),
        h == base.push(Effect::Staged(b, p)) + mid + Seq::<Effect>::empty().push(
            Effect::Removed(p),
        ),
    ensures
        all_staged_removed(h),
{
    let si = base.len() as int;
    let last = h.len() - 1;
    assert(h.len() == base.len() + 1 + mid.len() + 1);
    assert(h[last] == Effect::Removed(p));
    assert forall|i: int| 0 <= i < h.len() implies ((#[trigger] h[i]) matches Effect::Staged(
        bb,
        pp,
    ) ==> exists|j: int| i < j < h.len() && h[j] == Effect::Removed(pp)) by {
        match h[i] {
            Effect::Staged(bb, pp) => {
                if i < si {
                    assert(h[i] == base[i]);
                    assert(false);
                } else if i == si {
                    assert(h[i] == Effect::Staged(b, p));
                    assert(i < last < h.len() && h[last] == Effect::Removed(pp));
                } else if i < last {
                    assert(h[i] == mid[i - si - 1]);
                    assert(false);
                } else {
                    assert(h[i] == Effect::Removed(p));
                    assert(false);
                }
            },
            _ => {},
        }
    }
}

/// Law (cleanup): a finished job has removed every artifact it staged; no
/// temporary file it asked for outlives it.
pub proof fn lemma_done_jobs_clean_up(m: JobMachine)
    requires
        m.wf(),
        m.phase is Done,
    ensures
        all_staged_removed(m.effects@),
{
    let h = m.effects@;
    let base = m.render_effects();
    assert(forall|i: int| 0 <= i < base.len() ==> #[trigger] base[i] == Effect::RenderRequested);
    match m.phase {
        JobPhase::Done { outcome } => {
            match outcome {
                JobOutcome::Failed(PipelineError::PrinterNotFound) => {
                    assert(h.len() == 0);
                },
                JobOutcome::Failed(PipelineError::RenderingFailed(_)) => {
                    lemma_no_staged(h);
                },
                JobOutcome::Failed(PipelineError::StagingFailed) => {
                    let b = m.rendered@.unwrap();
                    let p = m.staged_path@.unwrap();
                    assert(h =~= base.push(Effect::Staged(b, p)) + Seq::<Effect>::empty()
                        + Seq::<Effect>::empty().push(Effect::Removed(p)));
                    lemma_clean_shape(h, base, b, p, Seq::<Effect>::empty());
                },
                _ => {
                    let b = m.rendered@.unwrap();
                    let p = m.staged_path@.unwrap();
                    let mid = Seq::<Effect>::empty().push(
                        Effect::Dispatched(p, m.job.printer_name@),
                    );
                    assert(h =~= base.push(Effect::Staged(b, p)) + mid
                        + Seq::<Effect>::empty().push(Effect::Removed(p)));
                    lemma_clean_shape(h, base, b, p, mid);
                },
            }
        },
        _ => {},
    }
}

/// Law (no work for unknown printers): a job refused because its printer is
/// absent from the directory requested no rendering, staging or dispatch.
pub proof fn lemma_missing_printer_no_effects(m: JobMachine)
    requires
        m.wf(),
        m.phase == (JobPhase::Done { outcome: JobOutcome::Failed(PipelineError::PrinterNotFound) }),
    ensures
        m.effects@ == Seq::<Effect>::empty(),
{
}

/// Law (terminal report): a finished job awaits no further event; the
/// pipeline holds no obligation after reporting its outcome.
pub proof fn lemma_done_is_terminal(m: JobMachine, ev: JobEvent)
    requires
        m.phase is Done,
    ensures
        !m.expects(ev),
{
}

/// Law (pdf round trip): under a well-formed run of a `pdf` job, every
/// staged artifact's bytes are exactly the base64 decoding of the content.
pub proof fn lemma_pdf_round_trip(m: JobMachine)
    requires
        m.wf(),
        m.content_faithful(),
        m.job.format is Pdf,
    ensures
        pdf_staging_exact(m),
{
    let h = m.effects@;
    assert forall|i: int| 0 <= i < h.len() implies ((#[trigger] h[i]) matches Effect::Staged(b, p)
        ==> Some(b) == b64_decoded(m.job.content@)) by {
        match h[i] {
            Effect::Staged(b, p) => {
                let rb = m.rendered@.unwrap();
                let rp = m.staged_path@.unwrap();
                match m.phase {
                    JobPhase::Received => { assert(false); },
                    JobPhase::Rendering => { assert(false); },
                    JobPhase::Done { outcome } => {
                        match outcome {
                            JobOutcome::Failed(PipelineError::PrinterNotFound) => {
                                assert(false);
                            },
                            JobOutcome::Failed(PipelineError::RenderingFailed(_)) => {
                                assert(false);
                            },
                            _ => {
                                assert(h[0] == Effect::Staged(rb, rp));
                                assert(i == 0);
                            },
                        }
                    },
                    _ => {
                        assert(h[0] == Effect::Staged(rb, rp));
                        assert(i == 0);
                    },
                }
            },
            _ => {},
        }
    }
}

impl JobMachine {
    /// Run one job's pipeline over a pre-recorded sequence of events, as a
    /// test double of the surroundings would produce it. Events are consumed
    /// in order; one that the pipeline does not await is dropped. Returns
    /// the machine and every action it requested: first the printer lookup,
    /// then one action per awaited event, the fold of the transition
    /// relation over the events.
    pub fn replay(job: PrintJobRequest, temp_dir: String, events: Vec<JobEvent>) -> (r: (
        JobMachine,
        Vec<JobAction>,
    ))
        ensures
            r.0.wf(),
            r.0.content_faithful(),
            r.0.job == job,
            r.0.temp_dir == temp_dir,
            r.1@.len() >= 1,
            (match r.1@[0] {
                JobAction::LookupPrinter { printer_name } => printer_name@ == job.printer_name@,
                _ => false,
            }),
            exists|m0: JobMachine|
                {
                    &&& #[trigger] replay_rel(m0, events@, r.0, r.1@.drop_first())
                    &&& is_initial_machine(m0, job, temp_dir)
                },
            r.0.phase is Done ==> all_staged_removed(r.0.effects@),
            r.0.phase == (JobPhase::Done {
                outcome: JobOutcome::Failed(PipelineError::PrinterNotFound),
            }) ==> r.0.effects@ == Seq::<Effect>::empty(),
            job.format is Pdf ==> pdf_staging_exact(r.0),
    {
        let (mut m, first) = JobMachine::start(job, temp_dir);
        let ghost m0 = m;
        let ghost all_evs = events@;
        let mut actions: Vec<JobAction> = Vec::new();
        actions.push(first);
        let mut evs = events;
        let ghost consumed: int = 0;
        proof {
            assert(is_initial_machine(m0, job, temp_dir));
            assert(all_evs.subrange(0, 0).len() == 0);
            assert(actions@.drop_first().len() == 0);
            assert(replay_rel(m0, all_evs.subrange(0, 0), m, actions@.drop_first()));
        }
        while evs.len() > 0
            invariant
                m.wf(),
                m.content_faithful(),
                m.job == job,
                m.temp_dir == temp_dir,
                0 <= consumed <= all_evs.len(),
                evs@ == all_evs.subrange(consumed, all_evs.len() as int),
                actions@.len() >= 1,
                (match actions@[0] {
                    JobAction::LookupPrinter { printer_name } => printer_name@
                        == job.printer_name@,
                    _ => false,
                }),
                is_initial_machine(m0, job, temp_dir),
                replay_rel(m0, all_evs.subrange(0, consumed), m, actions@.drop_first()),
            decreases evs.len(),
        {
            let ev = evs.remove(0);
            proof {
                assert(ev == all_evs[consumed]);
                assert(evs@ =~= all_evs.subrange(consumed + 1, all_evs.len() as int));
            }
            let ghost pre = m;
            let ghost pre_acts = actions@;
            let ghost gev = ev;
            if m.accepts(&ev) {
                let act = m.step(ev);
                actions.push(act);
                proof {
                    consumed = consumed + 1;
                    let evs_done = all_evs.subrange(0, consumed);
                    assert(evs_done.drop_last() =~= all_evs.subrange(0, consumed - 1));
                    assert(evs_done.last() == gev);
                    assert(actions@.drop_first() =~= pre_acts.drop_first().push(act));
                    assert(actions@.drop_first().drop_last() =~= pre_acts.drop_first());
                    assert(actions@.drop_first().last() == act);
                    assert(step_rel(pre, gev, m, act));
                    assert(replay_rel(m0, evs_done.drop_last(), pre, actions@.drop_first().drop_last()));
                    assert(replay_rel(m0, evs_done, m, actions@.drop_first()));
                }
            } else {
                proof {
                    consumed = consumed + 1;
                    let evs_done = all_evs.subrange(0, consumed);
                    assert(evs_done.drop_last() =~= all_evs.subrange(0, consumed - 1));
                    assert(evs_done.last() == gev);
                    assert(!m.expects(gev));
                    assert(replay_rel(m0, evs_done.drop_last(), m, actions@.drop_first()));
                    assert(replay_rel(m0, evs_done, m, actions@.drop_first()));
                }
            }
        }
        proof {
            assert(all_evs.subrange(0, consumed) =~= all_evs);
            assert(replay_rel(m0, events@, m, actions@.drop_first()));
            if m.phase is Done {
                lemma_done_jobs_clean_up(m);
            }
            if m.job.format is Pdf {
                lemma_pdf_round_trip(m);
            }
        }
        (m, actions)
    }
}

/// The HTTP status a finished job is reported with: success, a missing
/// printer, or any other failure.
pub fn http_status_of(outcome: &JobOutcome) -> (r: u16)
    ensures
        *outcome == JobOutcome::Accepted <==> r == 200,
        *outcome == JobOutcome::Failed(PipelineError::PrinterNotFound) <==> r == 404,
        (match outcome {
            JobOutcome::Failed(e) => !(e is PrinterNotFound),
            _ => false,
        }) <==> r == 500,
{
    match outcome {
        JobOutcome::Accepted => 200,
        JobOutcome::Failed(PipelineError::PrinterNotFound) => 404,
        JobOutcome::Failed(_) => 500,
    }
}

/// The message a finished job is reported with: a fixed text per outcome
/// and per rendering-failure class, and for a dispatch failure the
/// command's own diagnostic.
pub open spec fn message_of(outcome: JobOutcome) -> Seq<char> {
    match outcome {
        JobOutcome::Accepted => "Printing"@,
        JobOutcome::Failed(PipelineError::PrinterNotFound) => "Printer not found"@,
        JobOutcome::Failed(PipelineError::RenderingFailed(RenderFailure::InvalidEncoding)) =>
            "Invalid base64 content"@,
        JobOutcome::Failed(PipelineError::RenderingFailed(RenderFailure::RenderEngineError)) =>
            "Failed to render"@,
        JobOutcome::Failed(PipelineError::RenderingFailed(RenderFailure::HeaderInjectionError)) =>
            "Failed to set headers"@,
        JobOutcome::Failed(PipelineError::StagingFailed) => "Failed to stage file"@,
        JobOutcome::Failed(PipelineError::DispatchFailed(d)) => d@,
    }
}

/// The response message for a finished job.
pub fn response_message(outcome: &JobOutcome) -> (r: String)
    ensures
        r@ == message_of(*outcome),
{
    match outcome {
        JobOutcome::Accepted => "Printing".to_owned(),
        JobOutcome::Failed(PipelineError::PrinterNotFound) => "Printer not found".to_owned(),
        JobOutcome::Failed(PipelineError::RenderingFailed(RenderFailure::InvalidEncoding)) =>
            "Invalid base64 content".to_owned(),
        JobOutcome::Failed(PipelineError::RenderingFailed(RenderFailure::RenderEngineError)) =>
            "Failed to render".to_owned(),
        JobOutcome::Failed(PipelineError::RenderingFailed(RenderFailure::HeaderInjectionError)) =>
            "Failed to set headers".to_owned(),
        JobOutcome::Failed(PipelineError::StagingFailed) => "Failed to stage file".to_owned(),
        JobOutcome::Failed(PipelineError::DispatchFailed(d)) => d.clone(),
    }
}


} // verus!
