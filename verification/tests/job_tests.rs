use flux_engine::image_data::SDImageData;
use flux_engine::job::{
    edit_image, generate_image, has_no_nul, Job, JobAction, JobError, JobEvent, JobKind, JobStage,
};
use flux_engine::owner::{FluxState, SDContext, TeardownOutcome};
use flux_engine::params::SDGenerationParams;
use std::io::Cursor;

fn ready_owner(addr: usize) -> FluxState {
    let mut state = FluxState::new();
    let _ = state.publish(SDContext(addr));
    state
}

fn noise(len: usize, seed: u32) -> Vec<u8> {
    let mut state = seed;
    let mut bytes = Vec::with_capacity(len);
    for _ in 0..len {
        state = state.wrapping_mul(1664525).wrapping_add(1013904223);
        bytes.push((state >> 24) as u8);
    }
    bytes
}

fn generate_job(prompt: &str, output_path: &str) -> Job {
    let (job, first) = generate_image(prompt.to_string(), output_path.to_string());
    match first {
        JobAction::EnsureOutputDir { output_path: asked } => assert_eq!(asked, output_path),
        _ => panic!("a job starts with its output directory"),
    }
    job
}

fn edit_job(prompt: &str, output_path: &str, refs: &[&str]) -> Job {
    let paths = refs.iter().map(|path| path.to_string()).collect();
    let (job, first) = edit_image(prompt.to_string(), output_path.to_string(), paths);
    match first {
        JobAction::EnsureOutputDir { output_path: asked } => assert_eq!(asked, output_path),
        _ => panic!("a job starts with its output directory"),
    }
    job
}

fn calling_generate_job(owner: &mut FluxState) -> Job {
    let mut job = generate_job("a cat", "out/cat.png");
    assert!(matches!(job.step(owner, JobEvent::OutputDirReady), JobAction::Generate { .. }));
    job
}

#[test]
fn submitted_job_prepares_its_output() {
    let job = generate_job("a cat", "out/cat.png");
    assert_eq!(job.kind(), JobKind::Generate);
    assert_eq!(job.stage(), JobStage::PreparingOutput);
    assert!(!job.is_finished());
    let job = edit_job("a dog", "out/dog.png", &["a.png"]);
    assert_eq!(job.kind(), JobKind::Edit);
    assert_eq!(job.stage(), JobStage::PreparingOutput);
    assert_eq!(job.loaded_references(), 0);
}

#[test]
fn default_generation_parameters() {
    let params = SDGenerationParams::for_prompt("a cat".to_string());
    assert_eq!(params.prompt, "a cat");
    assert_eq!(params.width, 512);
    assert_eq!(params.height, 512);
    assert_eq!(params.sample_steps, 20);
    assert_eq!(params.cfg_scale_milli, 1000);
    assert!(params.is_valid());
    let copy = params.duplicate();
    assert_eq!(copy.prompt, "a cat");
    assert_eq!(copy.width, 512);
    assert_eq!(copy.height, 512);
    assert_eq!(copy.sample_steps, 20);
    assert_eq!(copy.cfg_scale_milli, 1000);
}

#[test]
fn parameters_without_area_or_steps_are_invalid() {
    let mut params = SDGenerationParams::for_prompt(String::new());
    params.width = 0;
    assert!(!params.is_valid());
    params.width = 1;
    params.height = 0;
    assert!(!params.is_valid());
    params.height = 1;
    params.sample_steps = 0;
    assert!(!params.is_valid());
    params.sample_steps = 1;
    assert!(params.is_valid());
}

#[test]
fn output_dir_failure_ends_the_job() {
    let mut owner = ready_owner(1);
    let mut job = generate_job("a cat", "out/cat.png");
    assert!(matches!(
        job.step(&mut owner, JobEvent::OutputDirFailed),
        JobAction::Fail(JobError::OutputPathError)
    ));
    assert!(job.is_finished());
    assert!(!owner.is_lent());
}

#[test]
fn job_before_initialization_is_not_ready() {
    let mut owner = FluxState::new();
    let mut job = generate_job("a cat", "out/cat.png");
    assert!(matches!(
        job.step(&mut owner, JobEvent::OutputDirReady),
        JobAction::Fail(JobError::EngineNotReady)
    ));
    assert!(job.is_finished());
    assert!(!owner.is_lent());
    assert!(!owner.is_ready());
}

#[test]
fn edit_job_before_initialization_is_not_ready() {
    let mut owner = FluxState::new();
    let mut job = edit_job("a dog", "out/dog.png", &["a.png"]);
    assert!(matches!(job.step(&mut owner, JobEvent::OutputDirReady), JobAction::LoadReference { .. }));
    let loaded = JobEvent::ReferenceLoaded { width: 1, height: 1, pixels: vec![1, 2, 3] };
    assert!(matches!(job.step(&mut owner, loaded), JobAction::Fail(JobError::EngineNotReady)));
    assert!(job.is_finished());
    assert!(!owner.is_lent());
}

#[test]
fn generate_calls_the_engine_with_the_handle() {
    let mut owner = ready_owner(0x5000);
    let mut job = generate_job("a cat", "out/cat.png");
    match job.step(&mut owner, JobEvent::OutputDirReady) {
        JobAction::Generate { handle, params } => {
            assert_eq!(handle, 0x5000);
            assert_eq!(params.prompt, "a cat");
            assert_eq!(params.width, 512);
            assert_eq!(params.height, 512);
            assert_eq!(params.sample_steps, 20);
            assert_eq!(params.cfg_scale_milli, 1000);
        },
        _ => panic!("the engine must be called"),
    }
    assert_eq!(job.stage(), JobStage::Calling);
    assert!(owner.is_lent());
}

#[test]
fn constant_reply_is_saved_as_it_came() {
    let mut owner = ready_owner(1);
    let mut job = calling_generate_job(&mut owner);
    let reply = SDImageData { width: 4, height: 4, channel: 3, data: Some(vec![128; 48]) };
    let image = match job.step(&mut owner, JobEvent::EngineReplied(reply)) {
        JobAction::SaveImage { output_path, image } => {
            assert_eq!(output_path, "out/cat.png");
            image
        },
        _ => panic!("the image must be saved"),
    };
    assert_eq!(image.width, 4);
    assert_eq!(image.height, 4);
    assert_eq!(image.pixels, vec![128; 48]);
    assert_eq!(job.stage(), JobStage::Saving);
    assert!(!owner.is_lent());

    let buffer =
        image::ImageBuffer::<image::Rgb<u8>, Vec<u8>>::from_raw(image.width, image.height, image.pixels)
            .expect("the pixels fit the dimensions");
    let mut file = Cursor::new(Vec::new());
    buffer.write_to(&mut file, image::ImageFormat::Png).expect("the image is encoded");
    let decoded = image::load_from_memory(file.get_ref()).expect("the file decodes").to_rgb8();
    assert_eq!(decoded.width(), 4);
    assert_eq!(decoded.height(), 4);
    assert_eq!(decoded.as_raw().len(), 48);
    assert!(decoded.as_raw().iter().all(|sample| *sample == 128));
}

#[test]
fn saved_image_is_announced() {
    let mut owner = ready_owner(1);
    let mut job = calling_generate_job(&mut owner);
    let reply = SDImageData { width: 1, height: 1, channel: 3, data: Some(vec![1, 2, 3]) };
    assert!(matches!(job.step(&mut owner, JobEvent::EngineReplied(reply)), JobAction::SaveImage { .. }));
    match job.step(&mut owner, JobEvent::ImageSaved) {
        JobAction::Notify(result) => {
            assert_eq!(result.file_path, "out/cat.png");
            assert_eq!(result.prompt, "a cat");
        },
        _ => panic!("the application must be told"),
    }
    assert!(job.is_finished());
}

#[test]
fn save_failure_is_an_image_write_error() {
    let mut owner = ready_owner(1);
    let mut job = calling_generate_job(&mut owner);
    let reply = SDImageData { width: 1, height: 1, channel: 3, data: Some(vec![1, 2, 3]) };
    let _ = job.step(&mut owner, JobEvent::EngineReplied(reply));
    assert!(matches!(
        job.step(&mut owner, JobEvent::ImageSaveFailed),
        JobAction::Fail(JobError::ImageWriteError)
    ));
    assert!(job.is_finished());
}

#[test]
fn null_reply_is_a_generation_failure() {
    let mut owner = ready_owner(1);
    let mut job = calling_generate_job(&mut owner);
    let action = job.step(&mut owner, JobEvent::EngineReplied(SDImageData::null(0, 0, 0)));
    assert!(matches!(action, JobAction::Fail(JobError::GenerationFailed)));
    assert!(job.is_finished());
    assert!(!owner.is_lent());
    assert!(matches!(job.step(&mut owner, JobEvent::ImageSaved), JobAction::Nothing));
    assert!(matches!(job.step(&mut owner, JobEvent::OutputDirReady), JobAction::Nothing));
}

#[test]
fn reply_too_short_for_its_dimensions_is_not_saved() {
    let mut owner = ready_owner(1);
    let mut job = calling_generate_job(&mut owner);
    let reply = SDImageData { width: 4, height: 4, channel: 1, data: Some(vec![7; 16]) };
    assert!(matches!(
        job.step(&mut owner, JobEvent::EngineReplied(reply)),
        JobAction::Fail(JobError::ImageWriteError)
    ));
    assert!(job.is_finished());
    assert!(!owner.is_lent());
}

#[test]
fn edit_loads_references_in_order() {
    let mut owner = ready_owner(0x77);
    let mut job = edit_job("merge", "out/merged.png", &["first.png", "second.jpg"]);
    match job.step(&mut owner, JobEvent::OutputDirReady) {
        JobAction::LoadReference { path } => assert_eq!(path, "first.png"),
        _ => panic!("the first reference must be loaded"),
    }
    assert_eq!(job.stage(), JobStage::LoadingReferences);
    assert!(!owner.is_lent());
    let first = JobEvent::ReferenceLoaded { width: 2, height: 3, pixels: vec![10; 18] };
    match job.step(&mut owner, first) {
        JobAction::LoadReference { path } => assert_eq!(path, "second.jpg"),
        _ => panic!("the second reference must be loaded"),
    }
    assert_eq!(job.loaded_references(), 1);
    assert!(!owner.is_lent());
}

#[test]
fn edit_passes_mismatched_references() {
    let mut owner = ready_owner(0x77);
    let mut job = edit_job("merge", "out/merged.png", &["first.png", "second.jpg"]);
    let _ = job.step(&mut owner, JobEvent::OutputDirReady);
    let _ = job.step(
        &mut owner,
        JobEvent::ReferenceLoaded { width: 2, height: 3, pixels: vec![10; 18] },
    );
    let second = JobEvent::ReferenceLoaded { width: 5, height: 1, pixels: vec![20; 15] };
    match job.step(&mut owner, second) {
        JobAction::Edit { handle, params, references, count } => {
            assert_eq!(handle, 0x77);
            assert_eq!(params.prompt, "merge");
            assert_eq!(params.width, 512);
            assert_eq!(params.height, 512);
            assert_eq!(count, 2);
            assert_eq!(references.len(), 2);
            assert_eq!((references[0].width, references[0].height, references[0].channel), (2, 3, 3));
            assert_eq!(references[0].data, Some(vec![10; 18]));
            assert_eq!((references[1].width, references[1].height, references[1].channel), (5, 1, 3));
            assert_eq!(references[1].data, Some(vec![20; 15]));
        },
        _ => panic!("the engine must be called"),
    }
    assert_eq!(job.stage(), JobStage::Calling);
    assert_eq!(job.loaded_references(), 0);
    assert!(owner.is_lent());
}

#[test]
fn reference_bytes_reach_the_engine_unchanged() {
    let mut owner = ready_owner(3);
    let mut job = edit_job("keep", "out/kept.png", &["noise.png"]);
    let _ = job.step(&mut owner, JobEvent::OutputDirReady);
    let bytes = noise(7 * 5 * 3, 99);
    let loaded = JobEvent::ReferenceLoaded { width: 7, height: 5, pixels: bytes.clone() };
    match job.step(&mut owner, loaded) {
        JobAction::Edit { references, count, .. } => {
            assert_eq!(count, 1);
            assert_eq!(references[0].width, 7);
            assert_eq!(references[0].height, 5);
            assert_eq!(references[0].data.as_deref(), Some(bytes.as_slice()));
        },
        _ => panic!("the engine must be called"),
    }
}

#[test]
fn edit_without_references_goes_straight_to_the_engine() {
    let mut owner = ready_owner(3);
    let mut job = edit_job("plain", "out/plain.png", &[]);
    match job.step(&mut owner, JobEvent::OutputDirReady) {
        JobAction::Edit { handle, references, count, .. } => {
            assert_eq!(handle, 3);
            assert_eq!(count, 0);
            assert!(references.is_empty());
        },
        _ => panic!("the engine must be called"),
    }
}

#[test]
fn unloadable_reference_ends_the_job_before_the_engine() {
    let mut owner = ready_owner(3);
    let mut job = edit_job("merge", "out/merged.png", &["missing.png", "b.png"]);
    let _ = job.step(&mut owner, JobEvent::OutputDirReady);
    assert!(matches!(
        job.step(&mut owner, JobEvent::ReferenceFailed),
        JobAction::Fail(JobError::ReferenceImageError)
    ));
    assert!(job.is_finished());
    assert!(!owner.is_lent());
}

#[test]
fn reference_with_wrong_length_ends_the_job() {
    let mut owner = ready_owner(3);
    let mut job = edit_job("merge", "out/merged.png", &["a.png"]);
    let _ = job.step(&mut owner, JobEvent::OutputDirReady);
    let loaded = JobEvent::ReferenceLoaded { width: 2, height: 2, pixels: vec![0; 11] };
    assert!(matches!(job.step(&mut owner, loaded), JobAction::Fail(JobError::ReferenceImageError)));
    assert!(job.is_finished());
    assert!(!owner.is_lent());
}

#[test]
fn edit_reply_is_saved_and_announced() {
    let mut owner = ready_owner(3);
    let mut job = edit_job("merge", "out/merged.png", &["a.png"]);
    let _ = job.step(&mut owner, JobEvent::OutputDirReady);
    let _ = job.step(&mut owner, JobEvent::ReferenceLoaded { width: 1, height: 1, pixels: vec![1, 2, 3] });
    let reply = SDImageData { width: 2, height: 1, channel: 3, data: Some(vec![1, 2, 3, 4, 5, 6]) };
    match job.step(&mut owner, JobEvent::EngineReplied(reply)) {
        JobAction::SaveImage { output_path, image } => {
            assert_eq!(output_path, "out/merged.png");
            assert_eq!((image.width, image.height), (2, 1));
            assert_eq!(image.pixels, vec![1, 2, 3, 4, 5, 6]);
        },
        _ => panic!("the image must be saved"),
    }
    match job.step(&mut owner, JobEvent::ImageSaved) {
        JobAction::Notify(result) => {
            assert_eq!(result.file_path, "out/merged.png");
            assert_eq!(result.prompt, "merge");
        },
        _ => panic!("the application must be told"),
    }
}

#[test]
fn second_job_waits_while_the_first_calls() {
    let mut owner = ready_owner(0x42);
    let mut first = calling_generate_job(&mut owner);
    let mut second = generate_job("a dog", "out/dog.png");
    assert!(matches!(second.step(&mut owner, JobEvent::OutputDirReady), JobAction::WaitForEngine));
    assert_eq!(second.stage(), JobStage::WaitingForEngine);
    assert!(matches!(second.step(&mut owner, JobEvent::EngineFree), JobAction::WaitForEngine));
    assert_eq!(first.stage(), JobStage::Calling);

    let reply = SDImageData { width: 1, height: 1, channel: 3, data: Some(vec![1, 2, 3]) };
    assert!(matches!(first.step(&mut owner, JobEvent::EngineReplied(reply)), JobAction::SaveImage { .. }));
    assert!(!owner.is_lent());
    match second.step(&mut owner, JobEvent::EngineFree) {
        JobAction::Generate { handle, params } => {
            assert_eq!(handle, 0x42);
            assert_eq!(params.prompt, "a dog");
        },
        _ => panic!("the waiting job must get the handle"),
    }
    assert!(owner.is_lent());
    assert_eq!(second.stage(), JobStage::Calling);
}

#[test]
fn teardown_waits_for_the_job_in_flight() {
    let mut owner = ready_owner(0x42);
    let mut job = calling_generate_job(&mut owner);
    assert!(matches!(owner.teardown(), TeardownOutcome::Busy));
    let _ = job.step(&mut owner, JobEvent::EngineReplied(SDImageData::null(0, 0, 0)));
    match owner.teardown() {
        TeardownOutcome::Released(ctx) => assert_eq!(ctx.0, 0x42),
        _ => panic!("the handle must be released"),
    }
    assert!(matches!(owner.teardown(), TeardownOutcome::Empty));
}

#[test]
fn events_out_of_turn_change_nothing() {
    let mut owner = ready_owner(1);
    let mut job = generate_job("a cat", "out/cat.png");
    assert!(matches!(job.step(&mut owner, JobEvent::ImageSaved), JobAction::Nothing));
    assert!(matches!(job.step(&mut owner, JobEvent::EngineFree), JobAction::Nothing));
    assert!(matches!(job.step(&mut owner, JobEvent::ReferenceFailed), JobAction::Nothing));
    assert!(matches!(
        job.step(&mut owner, JobEvent::EngineReplied(SDImageData::null(1, 1, 3))),
        JobAction::Nothing
    ));
    assert_eq!(job.stage(), JobStage::PreparingOutput);
    assert!(!owner.is_lent());

    let mut job = calling_generate_job(&mut owner);
    assert!(matches!(job.step(&mut owner, JobEvent::OutputDirReady), JobAction::Nothing));
    assert!(matches!(job.step(&mut owner, JobEvent::ImageSaveFailed), JobAction::Nothing));
    assert!(matches!(
        job.step(&mut owner, JobEvent::ReferenceLoaded { width: 1, height: 1, pixels: vec![0; 3] }),
        JobAction::Nothing
    ));
    assert_eq!(job.stage(), JobStage::Calling);
    assert!(owner.is_lent());
}

#[test]
fn submitted_request_is_passed_to_the_engine() {
    let mut owner = ready_owner(0x9);
    let request = SDGenerationParams {
        prompt: "a small boat".to_string(),
        width: 256,
        height: 128,
        sample_steps: 4,
        cfg_scale_milli: 3500,
    };
    assert!(request.is_valid());
    let (mut job, first) =
        Job::submit(JobKind::Generate, request, "boats/one.png".to_string(), Vec::new());
    match first {
        JobAction::EnsureOutputDir { output_path } => assert_eq!(output_path, "boats/one.png"),
        _ => panic!("a job starts with its output directory"),
    }
    match job.step(&mut owner, JobEvent::OutputDirReady) {
        JobAction::Generate { handle, params } => {
            assert_eq!(handle, 0x9);
            assert_eq!(params.prompt, "a small boat");
            assert_eq!(params.width, 256);
            assert_eq!(params.height, 128);
            assert_eq!(params.sample_steps, 4);
            assert_eq!(params.cfg_scale_milli, 3500);
        },
        _ => panic!("the engine must be called"),
    }
}

#[test]
fn generate_job_never_loads_references() {
    let mut owner = ready_owner(0x9);
    let request = SDGenerationParams::for_prompt("a cat".to_string());
    let (mut job, _) = Job::submit(
        JobKind::Generate,
        request,
        "out/cat.png".to_string(),
        vec!["unused.png".to_string()],
    );
    assert!(matches!(job.step(&mut owner, JobEvent::OutputDirReady), JobAction::Generate { .. }));
}

#[test]
fn nul_is_found_wherever_it_stands() {
    assert!(has_no_nul(""));
    assert!(has_no_nul("a cat"));
    assert!(has_no_nul("caf\u{e9} \u{1f600} 0"));
    assert!(!has_no_nul("\0"));
    assert!(!has_no_nul("\0ab"));
    assert!(!has_no_nul("a\0b"));
    assert!(!has_no_nul("ab\0"));
    assert!(!has_no_nul("caf\u{e9}\0"));
}

#[test]
fn generate_prompt_with_nul_never_reaches_the_engine() {
    let mut owner = ready_owner(0x42);
    let mut job = generate_job("a\0b", "out/cat.png");
    assert!(matches!(
        job.step(&mut owner, JobEvent::OutputDirReady),
        JobAction::Fail(JobError::InvalidPrompt)
    ));
    assert!(job.is_finished());
    assert!(!owner.is_lent());

    let mut later = generate_job("a cat", "out/cat.png");
    assert!(matches!(later.step(&mut owner, JobEvent::OutputDirReady), JobAction::Generate { .. }));
    let _ = later.step(&mut owner, JobEvent::EngineReplied(SDImageData::null(0, 0, 0)));
    assert!(matches!(owner.teardown(), TeardownOutcome::Released(_)));
}

#[test]
fn edit_prompt_with_nul_never_reaches_the_engine() {
    let mut owner = ready_owner(0x42);
    let mut job = edit_job("a\0b", "out/dog.png", &["a.png"]);
    assert!(matches!(job.step(&mut owner, JobEvent::OutputDirReady), JobAction::LoadReference { .. }));
    let loaded = JobEvent::ReferenceLoaded { width: 1, height: 1, pixels: vec![1, 2, 3] };
    assert!(matches!(job.step(&mut owner, loaded), JobAction::Fail(JobError::InvalidPrompt)));
    assert!(job.is_finished());
    assert!(!owner.is_lent());

    let mut bare = edit_job("a\0b", "out/dog.png", &[]);
    assert!(matches!(
        bare.step(&mut owner, JobEvent::OutputDirReady),
        JobAction::Fail(JobError::InvalidPrompt)
    ));
    assert!(!owner.is_lent());

    let mut later = edit_job("a dog", "out/dog.png", &[]);
    assert!(matches!(later.step(&mut owner, JobEvent::OutputDirReady), JobAction::Edit { .. }));
}

#[test]
fn empty_slot_is_answered_before_the_prompt() {
    let mut owner = FluxState::new();
    let mut job = generate_job("\0", "out/cat.png");
    assert!(matches!(
        job.step(&mut owner, JobEvent::OutputDirReady),
        JobAction::Fail(JobError::EngineNotReady)
    ));
    assert!(job.is_finished());
    let mut job = edit_job("a\0b", "out/dog.png", &["a.png"]);
    assert!(matches!(job.step(&mut owner, JobEvent::OutputDirReady), JobAction::LoadReference { .. }));
    let loaded = JobEvent::ReferenceLoaded { width: 1, height: 1, pixels: vec![1, 2, 3] };
    assert!(matches!(job.step(&mut owner, loaded), JobAction::Fail(JobError::EngineNotReady)));
    assert!(job.is_finished());
    assert!(!owner.is_lent());
    assert!(!owner.is_ready());
}

#[test]
fn prompt_with_nul_fails_while_another_job_calls() {
    let mut busy = ready_owner(1);
    let _first = calling_generate_job(&mut busy);
    let mut job = generate_job("x\0", "out/cat.png");
    assert!(matches!(
        job.step(&mut busy, JobEvent::OutputDirReady),
        JobAction::Fail(JobError::InvalidPrompt)
    ));
    assert!(job.is_finished());
    assert!(busy.is_lent());
}
