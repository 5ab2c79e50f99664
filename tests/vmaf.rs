use libvmaf_rs::error::FFIError;
use libvmaf_rs::model::Model;
use libvmaf_rs::picture::resolution::Resolution;
use libvmaf_rs::picture::{Picture, PixelFormat};
use libvmaf_rs::scoring::{PoolingMethod, VmafScoringError};
use libvmaf_rs::video::FrameCount;
use libvmaf_rs::vmaf::error::VmafError;
use libvmaf_rs::vmaf::run::{RunAction, ScoreRun};
use libvmaf_rs::vmaf::status::VmafStatus;
use libvmaf_rs::vmaf::{threads_for, validate_frame_pair, LogLevel, Vmaf, VmafConfiguration};

/// A stand-in for the native engine that counts its calls and scores frame
/// `i` as `1.0 - 0.01 * i`.
#[derive(Default)]
struct StubEngine {
    reads: Vec<(u64, u64, u32)>,
    released: Vec<u64>,
    flushes: u32,
    fail_reads: bool,
}

impl StubEngine {
    fn read(&mut self, reference: u64, distorted: u64, index: u32) -> i32 {
        self.reads.push((reference, distorted, index));
        // The engine takes both buffers whatever happens.
        self.released.push(reference);
        self.released.push(distorted);
        if self.fail_reads {
            -5
        } else {
            0
        }
    }

    fn flush(&mut self) -> i32 {
        self.flushes += 1;
        0
    }

    fn score(&self, index: u32) -> f64 {
        1.0 - 0.01 * index as f64
    }

    fn pooled_mean(&self, low: u32, high: u32) -> f64 {
        let n = (high - low + 1) as f64;
        (low..=high).map(|i| self.score(i)).sum::<f64>() / n
    }
}

fn session(model: &Model) -> Vmaf {
    let constructed = Vmaf::new(0, 0xC0).expect("Recieved error code from constructor");
    constructed.use_features_from_model(model, 0).unwrap()
}

fn picture(handle: u64, width: u32, height: u32) -> Picture {
    let size = Resolution::new(width, height).unwrap();
    Picture::new(PixelFormat::Yuv420p, 8, size, 0, handle).unwrap()
}

#[test]
fn vmaf_construct() {
    let vmaf = Vmaf::new(0, 0xC0).expect("Recieved error code from constructor");
    assert_eq!(vmaf.as_handle(), 0xC0);
    assert_eq!(vmaf.close(), 0xC0);
}

#[test]
fn failed_init_is_construct_error() {
    match Vmaf::new(-12, 0) {
        Err(VmafError::Construct(e)) => assert_eq!(e.errno(), 12),
        _ => panic!("init failure not reported"),
    }
}

#[test]
fn failed_feature_load_names_the_model() {
    let model = Model::new(Model::encode_version("vmaf_v0.6.1").unwrap(), 0, 1).unwrap();
    let constructed = Vmaf::new(0, 2).unwrap();
    assert_eq!(
        constructed.use_features_from_model(&model, -1).err(),
        Some(VmafError::Model(VmafScoringError::Load(Some("vmaf_v0.6.1".to_string()))))
    );
}

#[test]
fn get_vmaf_scores() {
    // Ten identical 64x64 4:2:0 8-bit pairs scored end to end.
    let n: u32 = 10;
    let model = Model::new(Model::encode_version("vmaf_v0.6.1").unwrap(), 0, 1).unwrap();
    let size = Resolution::new(64, 64).unwrap();
    let mut run = ScoreRun::new(n as usize, n as usize, &size, &size).unwrap();
    let mut engine = StubEngine::default();
    let mut vmaf = session(&model);
    let mut statuses = Vec::new();
    let mut allocated = Vec::new();

    while let RunAction::ReadPair(index) = run.next_action() {
        let reference = picture(100 + 2 * index as u64, 64, 64);
        let distorted = picture(101 + 2 * index as u64, 64, 64);
        allocated.push(reference.as_handle());
        allocated.push(distorted.as_handle());
        let request = vmaf.prepare_frame_pair(&reference, &distorted, index).unwrap();
        let status = engine.read(request.reference(), request.distorted(), request.index());
        vmaf.read_pictures(request, reference, distorted, status).unwrap();
        statuses.push(run.next_action().status());
        run.complete(Ok(())).unwrap();
    }
    assert_eq!(run.next_action(), RunAction::Flush);
    let scoring = vmaf.flush(engine.flush()).unwrap();
    run.complete(Ok(())).unwrap();

    let mut scores = Vec::new();
    while let RunAction::GetScore(index) = run.next_action() {
        scoring.get_score_at_index(&model, index, 0).unwrap();
        scores.push(engine.score(index));
        statuses.push(run.next_action().status());
        run.complete(Ok(())).unwrap();
    }
    assert_eq!(run.next_action(), RunAction::Done);
    assert!(run.succeeded());

    scoring.get_score_pooled(&model, PoolingMethod::Mean, 0, n - 1, 0).unwrap();
    let pooled = engine.pooled_mean(0, n - 1);
    let expected = 1.0 - 0.01 * (n - 1) as f64 / 2.0;
    assert!((pooled - expected).abs() < 1e-9);

    assert_eq!(scores.len(), n as usize);
    assert!((scores[3] - 0.97).abs() < 1e-12);
    assert_eq!(engine.reads.len(), n as usize);
    assert_eq!(engine.flushes, 1);
    assert_eq!(engine.reads.iter().map(|r| r.2).collect::<Vec<u32>>(), (0..n).collect::<Vec<u32>>());
    // Every buffer was released once, by the engine.
    assert_eq!(engine.released, allocated);
    assert_eq!(
        statuses.iter().filter(|s| **s == Some(VmafStatus::Decode)).count(),
        n as usize
    );
    assert_eq!(
        statuses.iter().filter(|s| **s == Some(VmafStatus::GetScore)).count(),
        n as usize
    );
}

#[test]
fn failed_read_still_consumes_both_pictures() {
    let model = Model::new(Model::encode_version("vmaf_v0.6.1").unwrap(), 0, 1).unwrap();
    let mut vmaf = session(&model);
    let mut engine = StubEngine { fail_reads: true, ..Default::default() };
    let reference = picture(11, 32, 32);
    let distorted = picture(12, 32, 32);
    let request = vmaf.prepare_frame_pair(&reference, &distorted, 3).unwrap();
    let status = engine.read(request.reference(), request.distorted(), request.index());
    let result = vmaf.read_pictures(request, reference, distorted, status);
    assert_eq!(result, Err(VmafError::ReadFrame(3, FFIError::check_err(-5).unwrap_err())));
    // The engine took both buffers; the pictures were moved into the session.
    assert_eq!(engine.released, vec![11, 12]);
}

#[test]
fn mismatched_pictures_never_reach_the_engine() {
    let model = Model::new(Model::encode_version("vmaf_v0.6.1").unwrap(), 0, 1).unwrap();
    let vmaf = session(&model);
    let engine = StubEngine::default();
    let reference = picture(1, 64, 64);
    let distorted = picture(2, 32, 64);
    let result = vmaf.prepare_frame_pair(&reference, &distorted, 0);
    assert_eq!(
        result.err(),
        Some(VmafError::MismatchedResolution(
            Resolution::new(64, 64).unwrap(),
            Resolution::new(32, 64).unwrap(),
        ))
    );
    assert!(engine.reads.is_empty());
    // Neither picture was consumed: each still owns its buffer.
    assert_eq!(reference.release_target(), Some(1));
    assert_eq!(distorted.release_target(), Some(2));
}

#[test]
fn mismatched_frame_counts_fail_before_any_call() {
    let engine = StubEngine::default();
    let size = Resolution::new(64, 64).unwrap();
    let result = ScoreRun::new(8, 10, &size, &size);
    assert_eq!(result.err(), Some(VmafError::MismatchedFrameCount(8, 10)));
    assert!(engine.reads.is_empty());
    assert_eq!(engine.flushes, 0);
}

#[test]
fn mismatched_run_resolutions() {
    let a = Resolution::new(64, 64).unwrap();
    let b = Resolution::new(64, 48).unwrap();
    assert_eq!(ScoreRun::new(4, 4, &a, &b).err(), Some(VmafError::MismatchedResolution(a, b)));
}

#[test]
fn frame_count_checked_before_resolution() {
    let a = Resolution::new(64, 64).unwrap();
    let b = Resolution::new(64, 48).unwrap();
    assert_eq!(validate_frame_pair(&a, &b, 8, 10), Err(VmafError::MismatchedFrameCount(8, 10)));
    assert_eq!(validate_frame_pair(&a, &a, 5, 5), Ok(()));
}

#[test]
fn failed_flush_is_clear_frame_error() {
    let model = Model::new(Model::encode_version("vmaf_v0.6.1").unwrap(), 0, 1).unwrap();
    let vmaf = session(&model);
    match vmaf.flush(-11) {
        Err(VmafError::ClearFrame(e)) => assert_eq!(e.errno(), 11),
        _ => panic!("flush failure not reported"),
    }
}

#[test]
fn failed_score_reads_name_the_index() {
    let model = Model::new(Model::encode_version("vmaf_v0.6.1").unwrap(), 0, 1).unwrap();
    let scoring = session(&model).flush(0).unwrap();
    let id = Some("vmaf_v0.6.1".to_string());
    assert_eq!(
        scoring.get_score_at_index(&model, 7, -1),
        Err(VmafError::Model(VmafScoringError::GetScoreIndex(id.clone(), 7)))
    );
    assert_eq!(
        scoring.get_score_pooled(&model, PoolingMethod::HarmonicMean, 0, 7, -1),
        Err(VmafError::Model(VmafScoringError::GetScore(id)))
    );
}

#[test]
fn empty_run_flushes_then_finishes() {
    let size = Resolution::new(8, 8).unwrap();
    let mut run = ScoreRun::new(0, 0, &size, &size).unwrap();
    assert_eq!(run.frames(), 0);
    assert_eq!(run.next_action(), RunAction::Flush);
    run.complete(Ok(())).unwrap();
    assert_eq!(run.next_action(), RunAction::Done);
    run.complete(Ok(())).unwrap();
    assert_eq!(run.next_action(), RunAction::Done);
}

#[test]
fn run_step_sequence() {
    let size = Resolution::new(8, 8).unwrap();
    let mut run = ScoreRun::new(2, 2, &size, &size).unwrap();
    let mut actions = Vec::new();
    for _ in 0..7 {
        actions.push(run.next_action());
        run.complete(Ok(())).unwrap();
    }
    assert_eq!(
        actions,
        vec![
            RunAction::ReadPair(0),
            RunAction::ReadPair(1),
            RunAction::Flush,
            RunAction::GetScore(0),
            RunAction::GetScore(1),
            RunAction::Done,
            RunAction::Done,
        ]
    );
    assert_eq!(RunAction::Flush.status(), None);
    assert_eq!(RunAction::Done.status(), None);
}

#[test]
fn default_configuration() {
    let config = VmafConfiguration::default();
    assert_eq!(config.log_level, LogLevel::Warning);
    assert!(config.n_threads >= 1);
    assert_eq!((config.n_subsample, config.cpumask), (0, 0));
}

#[test]
fn thread_counts() {
    assert_eq!(threads_for(8), 8);
    assert_eq!(threads_for(u32::MAX as usize), u32::MAX);
    assert_eq!(threads_for(u32::MAX as usize + 1), u32::MAX);
}

#[test]
fn frame_count_counts_down() {
    let mut count = FrameCount::new(2).unwrap();
    assert_eq!(count.remaining(), 2);
    assert!(count.take_frame());
    assert!(count.take_frame());
    assert!(!count.take_frame());
    assert_eq!(count.remaining(), 0);
    assert!(FrameCount::new(-1).is_none());
}

#[test]
fn failed_pair_ends_the_run_with_its_error() {
    let model = Model::new(Model::encode_version("vmaf_v0.6.1").unwrap(), 0, 1).unwrap();
    let size = Resolution::new(16, 16).unwrap();
    let mut run = ScoreRun::new(5, 5, &size, &size).unwrap();
    let mut engine = StubEngine::default();
    let mut vmaf = session(&model);
    let mut result = Ok(());
    while let RunAction::ReadPair(index) = run.next_action() {
        // The engine refuses the pair at index 2 and every later one.
        engine.fail_reads = index >= 2;
        let reference = picture(10 * index as u64 + 1, 16, 16);
        let distorted = picture(10 * index as u64 + 2, 16, 16);
        let request = vmaf.prepare_frame_pair(&reference, &distorted, index).unwrap();
        let status = engine.read(request.reference(), request.distorted(), request.index());
        let outcome = vmaf.read_pictures(request, reference, distorted, status);
        result = run.complete(outcome);
    }
    assert_eq!(result, Err(VmafError::ReadFrame(2, FFIError::check_err(-5).unwrap_err())));
    assert_eq!(run.next_action(), RunAction::Done);
    assert!(!run.succeeded());
    // Pairs after the failing one were never read.
    assert_eq!(engine.reads.len(), 3);
    assert_eq!(engine.flushes, 0);
}

#[test]
fn later_outcomes_do_not_revive_a_failed_run() {
    let size = Resolution::new(8, 8).unwrap();
    let mut run = ScoreRun::new(1, 1, &size, &size).unwrap();
    let failure = VmafError::Picture(libvmaf_rs::picture::error::PictureError::Decode);
    assert_eq!(run.complete(Err(failure.clone())), Err(failure));
    assert_eq!(run.complete(Ok(())), Ok(()));
    assert_eq!(run.next_action(), RunAction::Done);
    assert!(!run.succeeded());
}

#[test]
fn count_mismatch_above_index_range() {
    let size = Resolution::new(8, 8).unwrap();
    let big = u32::MAX as usize + 7;
    assert_eq!(
        ScoreRun::new(big, 3, &size, &size).err(),
        Some(VmafError::MismatchedFrameCount(big, 3))
    );
}
