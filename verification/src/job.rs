//! One generate-or-edit job, step by step.
//!
//! A job never touches the file system or the engine. It names the next
//! thing to do as a [`JobAction`]; the caller does it and reports what
//! happened as a [`JobEvent`].

use crate::image_data::{
    image_views, reply_image, sample_count, ImageView, RgbImage, RgbView, SDImageData,
    RGB_CHANNELS,
};
use crate::owner::{FluxState, Lease, Owner};
use crate::params::{holds_no_nul, ParamsView, SDGenerationParams};
use vstd::prelude::*;

verus! {

/// What a job asks of the engine.
#[derive(Clone, Copy, Debug, PartialEq, Eq, Structural)]
pub enum JobKind {
    /// An image from a prompt.
    Generate,
    /// An image from a prompt and reference images.
    Edit,
}

/// Why a job ended without an image.
#[derive(Clone, Copy, Debug, PartialEq, Eq, Structural)]
pub enum JobError {
    /// The directory for the output file could not be made.
    OutputPathError,
    /// A reference image could not be loaded or described.
    ReferenceImageError,
    /// No engine has been published.
    EngineNotReady,
    /// The engine handed over no buffer.
    GenerationFailed,
    /// The image could not be encoded or written.
    ImageWriteError,
    /// The prompt holds a NUL character, so it cannot be handed to the engine
    /// as a C string.
    InvalidPrompt,
}

/// Where a job stands.
#[derive(Clone, Copy, Debug, PartialEq, Eq, Structural)]
pub enum JobStage {
    /// The directory of the output file is being made.
    PreparingOutput,
    /// A reference image is being loaded.
    LoadingReferences,
    /// Another job holds the engine handle.
    WaitingForEngine,
    /// The job holds the engine handle and the engine is at work.
    Calling,
    /// The image is being written.
    Saving,
    /// The job has ended.
    Finished,
}

/// What a finished job reports: the file it wrote and the prompt it came
/// from.
#[derive(Debug)]
pub struct GenerationResult {
    pub file_path: String,
    pub prompt: String,
}

/// A job's report as a mathematical value.
pub struct ResultView {
    pub file_path: Seq<char>,
    pub prompt: Seq<char>,
}

impl View for GenerationResult {
    type V = ResultView;

    open spec fn view(&self) -> ResultView {
        ResultView { file_path: self.file_path@, prompt: self.prompt@ }
    }
}

/// What the caller reports to a job.
#[derive(Debug)]
pub enum JobEvent {
    /// The directory of the output file exists.
    OutputDirReady,
    /// The directory of the output file could not be made.
    OutputDirFailed,
    /// The reference image asked for was loaded as RGB.
    ReferenceLoaded { width: u32, height: u32, pixels: Vec<u8> },
    /// The reference image asked for could not be loaded.
    ReferenceFailed,
    /// The engine handle may be free again.
    EngineFree,
    /// The engine call returned, and its buffer was copied and freed.
    EngineReplied(SDImageData),
    /// The image was written.
    ImageSaved,
    /// The image could not be written.
    ImageSaveFailed,
}

/// An event as a mathematical value.
pub enum EventView {
    OutputDirReady,
    OutputDirFailed,
    ReferenceLoaded { width: u32, height: u32, pixels: Seq<u8> },
    ReferenceFailed,
    EngineFree,
    EngineReplied(ImageView),
    ImageSaved,
    ImageSaveFailed,
}

impl View for JobEvent {
    type V = EventView;

    open spec fn view(&self) -> EventView {
        match *self {
            JobEvent::OutputDirReady => EventView::OutputDirReady,
            JobEvent::OutputDirFailed => EventView::OutputDirFailed,
            JobEvent::ReferenceLoaded { width, height, pixels } => EventView::ReferenceLoaded {
                width,
                height,
                pixels: pixels@,
            },
            JobEvent::ReferenceFailed => EventView::ReferenceFailed,
            JobEvent::EngineFree => EventView::EngineFree,
            JobEvent::EngineReplied(reply) => EventView::EngineReplied(reply@),
            JobEvent::ImageSaved => EventView::ImageSaved,
            JobEvent::ImageSaveFailed => EventView::ImageSaveFailed,
        }
    }
}

/// What a job asks the caller to do next.
#[derive(Debug)]
pub enum JobAction {
    /// Make the directory of the output file, with its ancestors.
    EnsureOutputDir { output_path: String },
    /// Load the image at `path` as RGB.
    LoadReference { path: String },
    /// Wait until the engine handle is given back, then report `EngineFree`.
    WaitForEngine,
    /// Call the engine's generate operation on `handle`.
    Generate { handle: usize, params: SDGenerationParams },
    /// Call the engine's edit operation on `handle` with `count` references.
    Edit { handle: usize, params: SDGenerationParams, references: Vec<SDImageData>, count: u32 },
    /// Encode the image and write it to `output_path`.
    SaveImage { output_path: String, image: RgbImage },
    /// Tell the application that the image is there. The job has ended.
    Notify(GenerationResult),
    /// The job has ended without an image.
    Fail(JobError),
    /// The event does not belong to the job's stage. Nothing changed.
    Nothing,
}

/// An action as a mathematical value.
pub enum ActionView {
    EnsureOutputDir { output_path: Seq<char> },
    LoadReference { path: Seq<char> },
    WaitForEngine,
    Generate { handle: usize, params: ParamsView },
    Edit { handle: usize, params: ParamsView, references: Seq<ImageView>, count: u32 },
    SaveImage { output_path: Seq<char>, image: RgbView },
    Notify(ResultView),
    Fail(JobError),
    Nothing,
}

impl ActionView {
    /// The action is a call into the engine.
    pub open spec fn is_engine_call(self) -> bool {
        self is Generate || self is Edit
    }
}

impl View for JobAction {
    type V = ActionView;

    open spec fn view(&self) -> ActionView {
        match *self {
            JobAction::EnsureOutputDir { output_path } => ActionView::EnsureOutputDir {
                output_path: output_path@,
            },
            JobAction::LoadReference { path } => ActionView::LoadReference { path: path@ },
            JobAction::WaitForEngine => ActionView::WaitForEngine,
            JobAction::Generate { handle, params } => ActionView::Generate {
                handle,
                params: params@,
            },
            JobAction::Edit { handle, params, references, count } => ActionView::Edit {
                handle,
                params: params@,
                references: image_views(references@),
                count,
            },
            JobAction::SaveImage { output_path, image } => ActionView::SaveImage {
                output_path: output_path@,
                image: image@,
            },
            JobAction::Notify(result) => ActionView::Notify(result@),
            JobAction::Fail(error) => ActionView::Fail(error),
            JobAction::Nothing => ActionView::Nothing,
        }
    }
}

/// Whether a prompt can be handed to the engine as a C string: none of its
/// characters is NUL.
pub open spec fn prompt_has_no_nul(prompt: Seq<char>) -> bool {
    holds_no_nul(prompt)
}

/// Whether none of the characters of `prompt` is NUL.
pub fn has_no_nul(prompt: &str) -> (clean: bool)
    ensures
        clean == prompt_has_no_nul(prompt@),
{
    let len = prompt.unicode_len();
    let mut index: usize = 0;
    while index < len
        invariant
            index <= len,
            len == prompt@.len(),
            forall|i: int| 0 <= i < index ==> prompt@[i] != '\0',
        decreases len - index,
    {
        if prompt.get_char(index) == '\0' {
            return false;
        }
        index += 1;
    }
    true
}

/// The views of a list of paths.
pub open spec fn path_views(paths: Seq<String>) -> Seq<Seq<char>> {
    paths.map_values(|path: String| path@)
}

/// A job as a mathematical value.
pub struct JobView {
    pub kind: JobKind,
    pub params: ParamsView,
    pub output_path: Seq<char>,
    /// Where the reference images are, in the order given.
    pub ref_paths: Seq<Seq<char>>,
    /// The reference images loaded so far, in the order of their paths.
    pub references: Seq<ImageView>,
    pub stage: JobStage,
}

/// A job, the owner and the action after one event.
pub struct Step {
    pub job: JobView,
    pub owner: Owner,
    pub action: ActionView,
}

impl JobView {
    /// A job as it is submitted.
    pub open spec fn submitted(
        kind: JobKind,
        params: ParamsView,
        output_path: Seq<char>,
        ref_paths: Seq<Seq<char>>,
    ) -> JobView {
        JobView {
            kind,
            params,
            output_path,
            ref_paths,
            references: Seq::empty(),
            stage: JobStage::PreparingOutput,
        }
    }

    /// The same job at another stage.
    pub open spec fn at(self, stage: JobStage) -> JobView {
        JobView { stage, ..self }
    }

    /// The job ends without an image.
    pub open spec fn fail(self, owner: Owner, error: JobError) -> Step {
        Step { job: self.at(JobStage::Finished), owner, action: ActionView::Fail(error) }
    }

    /// Every reference image the job holds has its buffer, three samples
    /// for each pixel and no more.
    pub open spec fn references_tight(self) -> bool {
        forall|i: int|
            0 <= i < self.references.len() ==> (#[trigger] self.references[i]).tight()
                && self.references[i].channel == RGB_CHANNELS
    }

    /// The job asks for the engine handle and, if it gets it, calls the
    /// engine with all it has loaded. An empty slot is answered first; then
    /// a prompt that holds a NUL, or more references than the engine can
    /// count, ends the job with the handle left where it is.
    pub open spec fn enter_engine(self, owner: Owner) -> Step {
        match owner.slot {
            None => self.fail(owner, JobError::EngineNotReady),
            Some(handle) => if !prompt_has_no_nul(self.params.prompt) {
                self.fail(owner, JobError::InvalidPrompt)
            } else if self.references.len() > u32::MAX {
                self.fail(owner, JobError::ReferenceImageError)
            } else {
                if owner.lent {
                    Step {
                        job: self.at(JobStage::WaitingForEngine),
                        owner,
                        action: ActionView::WaitForEngine,
                    }
                } else {
                    Step {
                        job: JobView {
                            stage: JobStage::Calling,
                            references: Seq::empty(),
                            ..self
                        },
                        owner: owner.lend(),
                        action: match self.kind {
                            JobKind::Generate => ActionView::Generate {
                                handle,
                                params: self.params,
                            },
                            JobKind::Edit => ActionView::Edit {
                                handle,
                                params: self.params,
                                references: self.references,
                                count: self.references.len() as u32,
                            },
                        },
                    }
                }
            },
        }
    }

    /// An edit job loads the next reference image while one is left; then,
    /// and for a generate job at once, the job goes to the engine.
    pub open spec fn proceed(self, owner: Owner) -> Step {
        if self.kind == JobKind::Edit && self.references.len() < self.ref_paths.len() {
            Step {
                job: self.at(JobStage::LoadingReferences),
                owner,
                action: ActionView::LoadReference {
                    path: self.ref_paths[self.references.len() as int],
                },
            }
        } else {
            self.enter_engine(owner)
        }
    }

    /// The engine's reply ends the call: the handle goes back, and the reply
    /// becomes an image to write or the job's failure.
    pub open spec fn take_reply(self, owner: Owner, reply: ImageView) -> Step {
        if reply.data is None {
            self.fail(owner.take_back(), JobError::GenerationFailed)
        } else {
            match reply_image(reply) {
                Some(image) => Step {
                    job: self.at(JobStage::Saving),
                    owner: owner.take_back(),
                    action: ActionView::SaveImage { output_path: self.output_path, image },
                },
                None => self.fail(owner.take_back(), JobError::ImageWriteError),
            }
        }
    }

    /// The job, the owner and the action after one event.
    pub open spec fn next(self, owner: Owner, event: EventView) -> Step {
        match (self.stage, event) {
            (JobStage::PreparingOutput, EventView::OutputDirReady) => self.proceed(owner),
            (JobStage::PreparingOutput, EventView::OutputDirFailed) => self.fail(
                owner,
                JobError::OutputPathError,
            ),
            (JobStage::LoadingReferences, EventView::ReferenceLoaded { width, height, pixels }) => {
                if pixels.len() == sample_count(width, height, RGB_CHANNELS) {
                    JobView {
                        references: self.references.push(ImageView::rgb(width, height, pixels)),
                        ..self
                    }.proceed(owner)
                } else {
                    self.fail(owner, JobError::ReferenceImageError)
                }
            },
            (JobStage::LoadingReferences, EventView::ReferenceFailed) => self.fail(
                owner,
                JobError::ReferenceImageError,
            ),
            (JobStage::WaitingForEngine, EventView::EngineFree) => self.enter_engine(owner),
            (JobStage::Calling, EventView::EngineReplied(reply)) => self.take_reply(owner, reply),
            (JobStage::Saving, EventView::ImageSaved) => Step {
                job: self.at(JobStage::Finished),
                owner,
                action: ActionView::Notify(
                    ResultView { file_path: self.output_path, prompt: self.params.prompt },
                ),
            },
            (JobStage::Saving, EventView::ImageSaveFailed) => self.fail(
                owner,
                JobError::ImageWriteError,
            ),
            _ => Step { job: self, owner, action: ActionView::Nothing },
        }
    }
}

/// One generate-or-edit job.
pub struct Job {
    kind: JobKind,
    params: SDGenerationParams,
    output_path: String,
    ref_paths: Vec<String>,
    references: Vec<SDImageData>,
    stage: JobStage,
}

impl View for Job {
    type V = JobView;

    closed spec fn view(&self) -> JobView {
        JobView {
            kind: self.kind,
            params: self.params@,
            output_path: self.output_path@,
            ref_paths: path_views(self.ref_paths@),
            references: image_views(self.references@),
            stage: self.stage,
        }
    }
}

impl Job {
    /// Submits a job of the given kind. The first thing to do is to make the
    /// output directory. A generate job never looks at `ref_paths`.
    pub fn submit(
        kind: JobKind,
        request: SDGenerationParams,
        output_path: String,
        ref_paths: Vec<String>,
    ) -> (started: (Job, JobAction))
        requires
            request@.valid(),
        ensures
            started.0@ == JobView::submitted(kind, request@, output_path@, path_views(ref_paths@)),
            started.1@ == (ActionView::EnsureOutputDir { output_path: output_path@ }),
    {
        let first = JobAction::EnsureOutputDir { output_path: output_path.clone() };
        let job = Job {
            kind,
            params: request,
            output_path,
            ref_paths,
            references: Vec::new(),
            stage: JobStage::PreparingOutput,
        };
        assert(image_views(job.references@) =~= Seq::empty());
        (job, first)
    }

    /// What the job asks of the engine.
    pub fn kind(&self) -> (kind: JobKind)
        ensures
            kind == self@.kind,
    {
        self.kind
    }

    /// Where the job stands.
    pub fn stage(&self) -> (stage: JobStage)
        ensures
            stage == self@.stage,
    {
        self.stage
    }

    /// Whether the job has ended.
    pub fn is_finished(&self) -> (finished: bool)
        ensures
            finished == (self@.stage == JobStage::Finished),
    {
        self.stage == JobStage::Finished
    }

    /// Number of reference images loaded and not yet handed to the engine.
    pub fn loaded_references(&self) -> (count: usize)
        ensures
            count == self@.references.len(),
    {
        self.references.len()
    }

    fn fail(&mut self, error: JobError) -> (action: JobAction)
        ensures
            final(self)@ == old(self)@.at(JobStage::Finished),
            action@ == ActionView::Fail(error),
    {
        self.stage = JobStage::Finished;
        JobAction::Fail(error)
    }

    fn enter_engine(&mut self, owner: &mut FluxState) -> (action: JobAction)
        ensures
            ({
                let step = old(self)@.enter_engine(old(owner)@);
                &&& final(self)@ == step.job
                &&& final(owner)@ == step.owner
                &&& action@ == step.action
            }),
    {
        if !owner.is_ready() {
            return self.fail(JobError::EngineNotReady);
        }
        if !has_no_nul(self.params.prompt.as_str()) {
            return self.fail(JobError::InvalidPrompt);
        }
        if self.references.len() > u32::MAX as usize {
            return self.fail(JobError::ReferenceImageError);
        }
        match owner.begin_call() {
            Lease::NotReady => self.fail(JobError::EngineNotReady),
            Lease::Busy => {
                self.stage = JobStage::WaitingForEngine;
                JobAction::WaitForEngine
            },
            Lease::Lent(handle) => {
                let params = self.params.duplicate();
                let mut references: Vec<SDImageData> = Vec::new();
                core::mem::swap(&mut self.references, &mut references);
                self.stage = JobStage::Calling;
                assert(image_views(self.references@) =~= Seq::empty());
                match self.kind {
                    JobKind::Generate => JobAction::Generate { handle, params },
                    JobKind::Edit => {
                        let count = references.len() as u32;
                        JobAction::Edit { handle, params, references, count }
                    },
                }
            },
        }
    }

    fn proceed(&mut self, owner: &mut FluxState) -> (action: JobAction)
        ensures
            ({
                let step = old(self)@.proceed(old(owner)@);
                &&& final(self)@ == step.job
                &&& final(owner)@ == step.owner
                &&& action@ == step.action
            }),
    {
        let loaded = self.references.len();
        if self.kind == JobKind::Edit && loaded < self.ref_paths.len() {
            self.stage = JobStage::LoadingReferences;
            JobAction::LoadReference { path: self.ref_paths[loaded].clone() }
        } else {
            self.enter_engine(owner)
        }
    }

    fn take_reply(&mut self, owner: &mut FluxState, reply: SDImageData) -> (action: JobAction)
        ensures
            ({
                let step = old(self)@.take_reply(old(owner)@, reply@);
                &&& final(self)@ == step.job
                &&& final(owner)@ == step.owner
                &&& action@ == step.action
            }),
    {
        owner.end_call();
        if reply.is_null() {
            return self.fail(JobError::GenerationFailed);
        }
        match reply.into_rgb() {
            Some(image) => {
                self.stage = JobStage::Saving;
                JobAction::SaveImage { output_path: self.output_path.clone(), image }
            },
            None => self.fail(JobError::ImageWriteError),
        }
    }

    /// Takes one event and names the next action. The owner is touched only
    /// where the job asks for the engine handle or gives it back.
    pub fn step(&mut self, owner: &mut FluxState, event: JobEvent) -> (action: JobAction)
        ensures
            ({
                let step = old(self)@.next(old(owner)@, event@);
                &&& final(self)@ == step.job
                &&& final(owner)@ == step.owner
                &&& action@ == step.action
            }),
    {
        match event {
            JobEvent::OutputDirReady => {
                if self.stage == JobStage::PreparingOutput {
                    self.proceed(owner)
                } else {
                    JobAction::Nothing
                }
            },
            JobEvent::OutputDirFailed => {
                if self.stage == JobStage::PreparingOutput {
                    self.fail(JobError::OutputPathError)
                } else {
                    JobAction::Nothing
                }
            },
            JobEvent::ReferenceLoaded { width, height, pixels } => {
                if self.stage == JobStage::LoadingReferences {
                    let ghost loaded = pixels@;
                    match SDImageData::from_rgb(width, height, pixels) {
                        Some(image) => {
                            self.references.push(image);
                            assert(image_views(self.references@) =~= image_views(
                                old(self).references@,
                            ).push(ImageView::rgb(width, height, loaded)));
                            self.proceed(owner)
                        },
                        None => self.fail(JobError::ReferenceImageError),
                    }
                } else {
                    JobAction::Nothing
                }
            },
            JobEvent::ReferenceFailed => {
                if self.stage == JobStage::LoadingReferences {
                    self.fail(JobError::ReferenceImageError)
                } else {
                    JobAction::Nothing
                }
            },
            JobEvent::EngineFree => {
                if self.stage == JobStage::WaitingForEngine {
                    self.enter_engine(owner)
                } else {
                    JobAction::Nothing
                }
            },
            JobEvent::EngineReplied(reply) => {
                if self.stage == JobStage::Calling {
                    self.take_reply(owner, reply)
                } else {
                    JobAction::Nothing
                }
            },
            JobEvent::ImageSaved => {
                if self.stage == JobStage::Saving {
                    self.stage = JobStage::Finished;
                    JobAction::Notify(
                        GenerationResult {
                            file_path: self.output_path.clone(),
                            prompt: self.params.prompt.clone(),
                        },
                    )
                } else {
                    JobAction::Nothing
                }
            },
            JobEvent::ImageSaveFailed => {
                if self.stage == JobStage::Saving {
                    self.fail(JobError::ImageWriteError)
                } else {
                    JobAction::Nothing
                }
            },
        }
    }
}

/// Submits a job that generates an image from `prompt` and writes it to
/// `output_path`. The first thing to do is to make the output directory.
pub fn generate_image(prompt: String, output_path: String) -> (started: (Job, JobAction))
    ensures
        started.0@ == JobView::submitted(
            JobKind::Generate,
            ParamsView::standard(prompt@),
            output_path@,
            Seq::empty(),
        ),
        started.1@ == (ActionView::EnsureOutputDir { output_path: output_path@ }),
{
    let ref_paths: Vec<String> = Vec::new();
    assert(path_views(ref_paths@) =~= Seq::empty());
    Job::submit(JobKind::Generate, SDGenerationParams::for_prompt(prompt), output_path, ref_paths)
}

/// Submits a job that edits the images at `ref_image_paths` after `prompt`
/// and writes the result to `output_path`. The first thing to do is to make
/// the output directory.
pub fn edit_image(prompt: String, output_path: String, ref_image_paths: Vec<String>) -> (started: (
    Job,
    JobAction,
))
    ensures
        started.0@ == JobView::submitted(
            JobKind::Edit,
            ParamsView::standard(prompt@),
            output_path@,
            path_views(ref_image_paths@),
        ),
        started.1@ == (ActionView::EnsureOutputDir { output_path: output_path@ }),
{
    Job::submit(JobKind::Edit, SDGenerationParams::for_prompt(prompt), output_path, ref_image_paths)
}

/// A reference image that is loaded joins the job's references as the last
/// one, with the dimensions and the samples it was loaded with; those loaded
/// before it stay as they are.
pub proof fn lemma_loaded_reference_is_kept(
    job: JobView,
    owner: Owner,
    width: u32,
    height: u32,
    pixels: Seq<u8>,
)
    requires
        job.stage == JobStage::LoadingReferences,
        pixels.len() == sample_count(width, height, RGB_CHANNELS),
        job.references.len() + 1 < job.ref_paths.len(),
        job.kind == JobKind::Edit,
    ensures
        ({
            let step = job.next(owner, EventView::ReferenceLoaded { width, height, pixels });
            &&& step.job.references == job.references.push(ImageView::rgb(width, height, pixels))
            &&& step.job.references.last().data == Some(pixels)
            &&& step.action == (ActionView::LoadReference {
                path: job.ref_paths[job.references.len() as int + 1],
            })
            &&& step.owner == owner
        }),
{
}

/// When the last reference image is loaded, the prompt holds no NUL and the
/// handle is free, the edit call gets every reference loaded, in the order
/// of their paths, sample for sample, and their number.
pub proof fn lemma_references_reach_engine_unchanged(
    job: JobView,
    owner: Owner,
    width: u32,
    height: u32,
    pixels: Seq<u8>,
)
    requires
        job.stage == JobStage::LoadingReferences,
        job.kind == JobKind::Edit,
        pixels.len() == sample_count(width, height, RGB_CHANNELS),
        job.references.len() + 1 == job.ref_paths.len(),
        job.ref_paths.len() <= u32::MAX,
        prompt_has_no_nul(job.params.prompt),
        owner.slot is Some,
        !owner.lent,
    ensures
        ({
            let step = job.next(owner, EventView::ReferenceLoaded { width, height, pixels });
            let all = job.references.push(ImageView::rgb(width, height, pixels));
            &&& step.action == (ActionView::Edit {
                handle: owner.slot->0,
                params: job.params,
                references: all,
                count: job.ref_paths.len() as u32,
            })
            &&& all.last().data == Some(pixels)
            &&& all.last().width == width
            &&& all.last().height == height
            &&& step.job.stage == JobStage::Calling
        }),
{
}

/// A reply without a buffer ends the job with `GenerationFailed`: nothing is
/// handed on to be written, and the handle goes back.
pub proof fn lemma_null_reply_fails_generation(job: JobView, owner: Owner, reply: ImageView)
    requires
        job.stage == JobStage::Calling,
        reply.data is None,
    ensures
        ({
            let step = job.next(owner, EventView::EngineReplied(reply));
            &&& step.action == ActionView::Fail(JobError::GenerationFailed)
            &&& step.job.stage == JobStage::Finished
            &&& step.owner == owner.take_back()
        }),
{
}

/// A job that has ended takes no further step.
pub proof fn lemma_finished_job_stays_finished(job: JobView, owner: Owner, event: EventView)
    requires
        job.stage == JobStage::Finished,
    ensures
        job.next(owner, event) == (Step { job, owner, action: ActionView::Nothing }),
{
}

/// No step lets a reference image into a job, or out of it to the engine,
/// whose buffer is not three samples for each pixel: if every reference the
/// job holds is tight, so is every one it holds after the step, and so is
/// every one an edit call is named with.
pub proof fn lemma_step_keeps_references_tight(job: JobView, owner: Owner, event: EventView)
    requires
        job.references_tight(),
    ensures
        job.next(owner, event).job.references_tight(),
        job.next(owner, event).action matches ActionView::Edit { references, count, .. }
            ==> count == references.len() && forall|i: int|
            0 <= i < references.len() ==> (#[trigger] references[i]).tight() && references[i].channel
                == RGB_CHANNELS,
{
}

/// A job holds no reference image when it is submitted.
pub proof fn lemma_submitted_references_tight(
    kind: JobKind,
    params: ParamsView,
    output_path: Seq<char>,
    ref_paths: Seq<Seq<char>>,
)
    ensures
        JobView::submitted(kind, params, output_path, ref_paths).references_tight(),
{
}

/// A prompt that holds a NUL never reaches the engine: where the job would
/// ask for the handle it ends, with `EngineNotReady` on an empty slot and
/// with `InvalidPrompt` otherwise, and the owner is left as it was.
pub proof fn lemma_nul_prompt_never_reaches_engine(job: JobView, owner: Owner, event: EventView)
    requires
        !prompt_has_no_nul(job.params.prompt),
    ensures
        !job.next(owner, event).action.is_engine_call(),
        job.stage != JobStage::Calling ==> job.next(owner, event).job.stage != JobStage::Calling
            && job.next(owner, event).owner == owner,
        owner.slot is Some ==> job.enter_engine(owner) == job.fail(
            owner,
            JobError::InvalidPrompt,
        ),
        owner.slot is None ==> job.enter_engine(owner) == job.fail(
            owner,
            JobError::EngineNotReady,
        ),
{
}

} // verus!
