//! Many jobs and one owner: what holds however their steps interleave.

use crate::job::{
    prompt_has_no_nul, ActionView, EventView, JobError, JobKind, JobStage, JobView,
};
use crate::image_data::{sample_count, RGB_CHANNELS};
use crate::job::lemma_step_keeps_references_tight;
use crate::owner::Owner;
use crate::params::ParamsView;
use vstd::prelude::*;

verus! {

/// What can happen in the process.
pub enum Happening {
    /// Someone asks to construct the engine.
    ClaimInit,
    /// A constructed engine instance is offered to the owner.
    Publish(usize),
    /// The owner is asked to give the handle up.
    Teardown,
    /// A job is submitted.
    Submit { kind: JobKind, params: ParamsView, output_path: Seq<char>, ref_paths: Seq<Seq<char>> },
    /// An event is reported to the job with the given number.
    Deliver { job: int, event: EventView },
}

/// The owner and every job submitted so far.
pub struct Dispatch {
    pub owner: Owner,
    pub jobs: Seq<JobView>,
}

/// Number of jobs whose engine call is in flight.
pub open spec fn engine_calls(jobs: Seq<JobView>) -> nat
    decreases jobs.len(),
{
    if jobs.len() == 0 {
        0
    } else {
        engine_calls(jobs.drop_last()) + (if jobs.last().stage == JobStage::Calling {
            1nat
        } else {
            0nat
        })
    }
}

impl Dispatch {
    /// The process at its start: an empty owner and no job.
    pub open spec fn start() -> Dispatch {
        Dispatch { owner: Owner::empty(), jobs: Seq::empty() }
    }

    /// The process after one happening.
    pub open spec fn next(self, happening: Happening) -> Dispatch {
        match happening {
            Happening::ClaimInit => Dispatch { owner: self.owner.claim(), ..self },
            Happening::Publish(handle) => Dispatch { owner: self.owner.publish(handle), ..self },
            Happening::Teardown => Dispatch { owner: self.owner.teardown(), ..self },
            Happening::Submit { kind, params, output_path, ref_paths } => Dispatch {
                jobs: self.jobs.push(JobView::submitted(kind, params, output_path, ref_paths)),
                ..self
            },
            Happening::Deliver { job, event } => {
                if 0 <= job < self.jobs.len() {
                    let step = self.jobs[job].next(self.owner, event);
                    Dispatch { owner: step.owner, jobs: self.jobs.update(job, step.job) }
                } else {
                    self
                }
            },
        }
    }

    /// The process after a run of happenings.
    pub open spec fn after(happenings: Seq<Happening>) -> Dispatch
        decreases happenings.len(),
    {
        if happenings.len() == 0 {
            Dispatch::start()
        } else {
            Dispatch::after(happenings.drop_last()).next(happenings.last())
        }
    }

    /// The owner's ledger is in step, and the handle is lent exactly when a
    /// job's engine call is in flight.
    pub open spec fn in_step(self) -> bool {
        &&& self.owner.consistent()
        &&& engine_calls(self.jobs) == self.owner.calls_in_flight()
    }
}

proof fn lemma_engine_calls_update(jobs: Seq<JobView>, index: int, job: JobView)
    requires
        0 <= index < jobs.len(),
    ensures
        engine_calls(jobs.update(index, job)) + (if jobs[index].stage == JobStage::Calling {
            1nat
        } else {
            0nat
        }) == engine_calls(jobs) + (if job.stage == JobStage::Calling {
            1nat
        } else {
            0nat
        }),
    decreases jobs.len(),
{
    let changed = jobs.update(index, job);
    if index == jobs.len() - 1 {
        assert(changed.drop_last() =~= jobs.drop_last());
    } else {
        assert(changed.drop_last() =~= jobs.drop_last().update(index, job));
        lemma_engine_calls_update(jobs.drop_last(), index, job);
    }
}

proof fn lemma_engine_calls_positive(jobs: Seq<JobView>, index: int)
    requires
        0 <= index < jobs.len(),
        jobs[index].stage == JobStage::Calling,
    ensures
        engine_calls(jobs) >= 1,
    decreases jobs.len(),
{
    if index < jobs.len() - 1 {
        lemma_engine_calls_positive(jobs.drop_last(), index);
    }
}

/// One step of one job acts on the owner as one borrow, one return, or not
/// at all: an engine call is named exactly when the handle is newly lent,
/// and then on the handle in the slot, with a prompt that holds no NUL.
pub proof fn lemma_step_borrows_or_returns(job: JobView, owner: Owner, event: EventView)
    ensures
        ({
            let step = job.next(owner, event);
            &&& step.owner == owner || step.owner == owner.lend() || step.owner
                == owner.take_back()
            &&& step.action.is_engine_call() <==> step.job.stage == JobStage::Calling && job.stage
                != JobStage::Calling
            &&& step.action.is_engine_call() ==> !owner.lent && step.owner.lent && step.owner
                == owner.lend()
            &&& step.action matches ActionView::Generate { handle, .. } ==> owner.slot == Some(
                handle,
            )
            &&& step.action matches ActionView::Edit { handle, .. } ==> owner.slot == Some(handle)
            &&& step.action matches ActionView::Generate { params, .. } ==> prompt_has_no_nul(
                params.prompt,
            ) && params == job.params
            &&& step.action matches ActionView::Edit { params, .. } ==> prompt_has_no_nul(
                params.prompt,
            ) && params == job.params
        }),
{
}

/// However jobs are submitted and their events delivered, the handle is
/// lent exactly while one job's engine call is in flight.
pub proof fn lemma_reachable_is_in_step(happenings: Seq<Happening>)
    ensures
        Dispatch::after(happenings).in_step(),
    decreases happenings.len(),
{
    if happenings.len() > 0 {
        let before = Dispatch::after(happenings.drop_last());
        lemma_reachable_is_in_step(happenings.drop_last());
        match happenings.last() {
            Happening::Submit { kind, params, output_path, ref_paths } => {
                let job = JobView::submitted(kind, params, output_path, ref_paths);
                assert(before.jobs.push(job).drop_last() =~= before.jobs);
            },
            Happening::Deliver { job, event } => {
                if 0 <= job < before.jobs.len() {
                    let step = before.jobs[job].next(before.owner, event);
                    lemma_engine_calls_update(before.jobs, job, step.job);
                    if before.jobs[job].stage == JobStage::Calling {
                        lemma_engine_calls_positive(before.jobs, job);
                    }
                }
            },
            _ => {},
        }
    }
}

/// However jobs are submitted and their events delivered, every reference
/// image a job holds has its buffer, three samples for each pixel and no
/// more.
pub proof fn lemma_reachable_references_are_tight(happenings: Seq<Happening>)
    ensures
        forall|job: int|
            0 <= job < Dispatch::after(happenings).jobs.len() ==> (#[trigger] Dispatch::after(
                happenings,
            ).jobs[job]).references_tight(),
    decreases happenings.len(),
{
    if happenings.len() > 0 {
        let before = Dispatch::after(happenings.drop_last());
        lemma_reachable_references_are_tight(happenings.drop_last());
        match happenings.last() {
            Happening::Deliver { job, event } => {
                if 0 <= job < before.jobs.len() {
                    lemma_step_keeps_references_tight(before.jobs[job], before.owner, event);
                }
            },
            _ => {},
        }
    }
}

/// For all sequences of job submissions and deliveries, at most one engine
/// call is in flight at any time.
pub proof fn lemma_one_engine_call_at_a_time(happenings: Seq<Happening>)
    ensures
        engine_calls(Dispatch::after(happenings).jobs) <= 1,
        Dispatch::after(happenings).owner.calls_in_flight() <= 1,
{
    lemma_reachable_is_in_step(happenings);
}

/// A handle leaves the owner for release only while no job's engine call is
/// in flight.
pub proof fn lemma_release_only_between_calls(happenings: Seq<Happening>, happening: Happening)
    ensures
        ({
            let before = Dispatch::after(happenings);
            let after = before.next(happening);
            after.owner.released != before.owner.released ==> engine_calls(before.jobs) == 0
                && engine_calls(after.jobs) == 0
        }),
{
    lemma_reachable_is_in_step(happenings);
    lemma_reachable_is_in_step(happenings.push(happening));
    assert(happenings.push(happening).drop_last() =~= happenings);
}

/// While no engine has been published, no step of any job names an engine
/// call or touches the owner, and a job that asks for the handle ends with
/// `EngineNotReady`, whatever its prompt and its references.
pub proof fn lemma_not_ready_means_no_call(job: JobView, owner: Owner, event: EventView)
    requires
        owner.consistent(),
        owner.slot is None,
    ensures
        !job.next(owner, event).action.is_engine_call(),
        job.next(owner, event).owner == owner,
        job.enter_engine(owner) == job.fail(owner, JobError::EngineNotReady),
{
}

/// A generate job submitted before any engine is published ends with
/// `EngineNotReady` as soon as its output directory is there.
pub proof fn lemma_generate_before_init_is_not_ready(
    params: ParamsView,
    output_path: Seq<char>,
    owner: Owner,
)
    requires
        owner.slot is None,
    ensures
        ({
            let job = JobView::submitted(JobKind::Generate, params, output_path, Seq::empty());
            let step = job.next(owner, EventView::OutputDirReady);
            &&& step.action == ActionView::Fail(JobError::EngineNotReady)
            &&& step.owner == owner
            &&& step.job.stage == JobStage::Finished
        }),
{
}

/// An edit job submitted before any engine is published ends with
/// `EngineNotReady` when its last reference image is loaded, or as soon as
/// its output directory is there if it has none to load.
pub proof fn lemma_edit_before_init_is_not_ready(
    job: JobView,
    owner: Owner,
    width: u32,
    height: u32,
    pixels: Seq<u8>,
)
    requires
        owner.slot is None,
        job.kind == JobKind::Edit,
    ensures
        job.stage == JobStage::PreparingOutput && job.references.len() >= job.ref_paths.len()
            ==> job.next(owner, EventView::OutputDirReady) == job.fail(
            owner,
            JobError::EngineNotReady,
        ),
        job.stage == JobStage::LoadingReferences && job.references.len() + 1
            >= job.ref_paths.len() && pixels.len() == sample_count(width, height, RGB_CHANNELS)
            ==> job.next(owner, EventView::ReferenceLoaded { width, height, pixels }).action
            == ActionView::Fail(JobError::EngineNotReady) && job.next(
            owner,
            EventView::ReferenceLoaded { width, height, pixels },
        ).owner == owner,
{
}

} // verus!
