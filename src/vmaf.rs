use vstd::prelude::*;

use core::marker::PhantomData;

use crate::error::{errno_of, FFIError};
use crate::model::{identifier_view, Model};
use crate::picture::resolution::Resolution;
use crate::picture::{Consumed, Picture};
use crate::scoring::{PoolingMethod, VmafScoringError};

use self::error::VmafError;

pub mod error;
pub mod run;
pub mod status;

verus! {

/// How much the engine logs.
#[derive(Debug, Clone, Copy, PartialEq, Eq, Structural)]
pub enum LogLevel {
    Quiet,
    Error,
    Warning,
    Info,
    Debug,
}

/// The settings a native context is initialised with.
#[derive(Debug, Clone, Copy, PartialEq, Eq, Structural)]
pub struct VmafConfiguration {
    pub log_level: LogLevel,
    /// Worker threads the engine may use.
    pub n_threads: u32,
    /// Score every n-th frame.
    pub n_subsample: u32,
    /// CPU features to leave unused.
    pub cpumask: u64,
}

/// Relies on num_cpus::get for the number of logical CPUs this process may use.
#[verifier::external_body]
fn cpu_count() -> (r: usize) {
    num_cpus::get()
}

/// The thread count for a number of CPUs, capped at the largest count the
/// engine accepts.
pub fn threads_for(cpus: usize) -> (r: u32)
    ensures
        cpus <= u32::MAX ==> r == cpus,
        cpus > u32::MAX ==> r == u32::MAX,
{
    match u32::try_from(cpus) {
        Ok(n) => n,
        Err(_) => u32::MAX,
    }
}

impl Default for VmafConfiguration {
    /// Warnings logged, one thread per CPU, every frame scored, no CPU feature
    /// left unused.
    fn default() -> (r: VmafConfiguration)
        ensures
            r.log_level == LogLevel::Warning,
            r.n_subsample == 0,
            r.cpumask == 0,
    {
        VmafConfiguration {
            log_level: LogLevel::Warning,
            n_threads: threads_for(cpu_count()),
            n_subsample: 0,
            cpumask: 0,
        }
    }
}

/// Checks that a reference and a distorted sequence can be scored together:
/// first their frame counts, then their resolutions, must agree.
pub fn validate_frame_pair(
    reference: &Resolution,
    distorted: &Resolution,
    reference_frames: usize,
    distorted_frames: usize,
) -> (r: Result<(), VmafError>)
    ensures
        r is Ok <==> (reference_frames == distorted_frames && *reference == *distorted),
        reference_frames != distorted_frames ==> r == Err::<(), VmafError>(
            VmafError::MismatchedFrameCount(reference_frames, distorted_frames),
        ),
        reference_frames == distorted_frames && *reference != *distorted ==> r == Err::<
            (),
            VmafError,
        >(VmafError::MismatchedResolution(*reference, *distorted)),
{
    if reference_frames != distorted_frames {
        return Err(VmafError::MismatchedFrameCount(reference_frames, distorted_frames));
    }
    if *reference != *distorted {
        return Err(VmafError::MismatchedResolution(*reference, *distorted));
    }
    Ok(())
}

/// The session has a native context but no model registered yet.
pub struct Constructed;

/// The session takes frame pairs.
pub struct ReadFrames;

/// The session has been flushed and hands out scores.
pub struct GetScores;

/// The buffers and index of one frame pair that the engine is to read. Only a
/// session that has checked the pair makes one, so no native read can be
/// issued for a pair that failed the check.
pub struct FrameRequest {
    reference: u64,
    distorted: u64,
    index: u32,
}

impl FrameRequest {
    pub closed spec fn spec_reference(&self) -> u64 {
        self.reference
    }

    pub closed spec fn spec_distorted(&self) -> u64 {
        self.distorted
    }

    pub closed spec fn spec_index(&self) -> u32 {
        self.index
    }

    pub fn reference(&self) -> (r: u64)
        ensures
            r == self.spec_reference(),
    {
        self.reference
    }

    pub fn distorted(&self) -> (r: u64)
        ensures
            r == self.spec_distorted(),
    {
        self.distorted
    }

    pub fn index(&self) -> (r: u32)
        ensures
            r == self.spec_index(),
    {
        self.index
    }
}

/// A scoring session on one native context. The phase parameter decides what
/// the session can do: register a model (`Constructed`), take frame pairs
/// (`ReadFrames`), or hand out scores (`GetScores`). `transferred` records the
/// picture buffers whose ownership has passed to the engine, in order.
pub struct Vmaf<Phase = ReadFrames> {
    context: u64,
    transferred: Ghost<Seq<u64>>,
    phase: PhantomData<Phase>,
}

impl<Phase> Vmaf<Phase> {
    /// The native context.
    pub closed spec fn spec_context(&self) -> u64 {
        self.context
    }

    /// The picture buffers handed to the engine so far.
    pub closed spec fn transferred(&self) -> Seq<u64> {
        self.transferred@
    }

    /// The native context, to hand to a native call.
    pub fn as_handle(&self) -> (r: u64)
        ensures
            r == self.spec_context(),
    {
        self.context
    }

    /// Ends the session, giving back the context that must now be closed; as
    /// the session is consumed, this happens once.
    pub fn close(self) -> (r: u64)
        ensures
            r == self.spec_context(),
    {
        self.context
    }
}

impl Vmaf<Constructed> {
    /// Takes charge of a native context, given the initialiser's status: a
    /// failure status is `Construct` with its error.
    pub fn new(status: i32, context: u64) -> (r: Result<Vmaf<Constructed>, VmafError>)
        ensures
            status == 0 <==> r is Ok,
            r matches Ok(v) ==> v.spec_context() == context && v.transferred() == Seq::<u64>::empty(),
            r matches Err(e) ==> e matches VmafError::Construct(f) && f.spec_errno() == errno_of(
                status,
            ),
    {
        match FFIError::check_err(status) {
            Ok(()) => Ok(Vmaf { context, transferred: Ghost(Seq::empty()), phase: PhantomData }),
            Err(e) => Err(VmafError::Construct(e)),
        }
    }

    /// Registers the model's features, given the engine's status for doing
    /// so; only then does the session take frame pairs. A failure status is
    /// `Model(Load)` with the model's identifier.
    pub fn use_features_from_model(self, model: &Model, status: i32) -> (r: Result<
        Vmaf<ReadFrames>,
        VmafError,
    >)
        ensures
            status == 0 <==> r is Ok,
            r matches Ok(v) ==> v.spec_context() == self.spec_context() && v.transferred()
                == self.transferred(),
            r matches Err(e) ==> e matches VmafError::Model(VmafScoringError::Load(id))
                && identifier_view(id) == model.spec_version(),
    {
        match model.load(status) {
            Ok(()) => Ok(Vmaf { context: self.context, transferred: self.transferred, phase: PhantomData }),
            Err(e) => Err(VmafError::Model(e)),
        }
    }
}

impl Vmaf<ReadFrames> {
    /// Checks a frame pair before it goes to the engine: pictures of different
    /// sizes are refused with `MismatchedResolution`; otherwise the request
    /// names both buffers and the index.
    pub fn prepare_frame_pair(&self, reference: &Picture, distorted: &Picture, index: u32) -> (r:
        Result<FrameRequest, VmafError>)
        ensures
            reference.same_size(distorted) <==> r is Ok,
            r matches Ok(q) ==> q.spec_reference() == reference.buffer() && q.spec_distorted()
                == distorted.buffer() && q.spec_index() == index,
            r matches Err(e) ==> e == VmafError::MismatchedResolution(
                reference.spec_resolution(),
                distorted.spec_resolution(),
            ),
    {
        let reference_resolution = reference.resolution();
        let distorted_resolution = distorted.resolution();
        if reference_resolution != distorted_resolution {
            return Err(VmafError::MismatchedResolution(reference_resolution, distorted_resolution));
        }
        Ok(FrameRequest { reference: reference.as_handle(), distorted: distorted.as_handle(), index })
    }

    /// Records the engine's reading of a requested frame pair, which must have
    /// passed the size check of `prepare_frame_pair`. The engine takes
    /// both buffers whatever its status, so both pictures are consumed and
    /// their buffers join `transferred` on success and failure alike; a failure
    /// status is `ReadFrame` with the index.
    pub fn read_pictures(
        &mut self,
        request: FrameRequest,
        reference: Picture,
        distorted: Picture,
        status: i32,
    ) -> (r: Result<(), VmafError>)
        requires
            reference.same_size(&distorted),
            request.spec_reference() == reference.buffer(),
            request.spec_distorted() == distorted.buffer(),
        ensures
            final(self).spec_context() == old(self).spec_context(),
            final(self).transferred() == old(self).transferred().push(reference.buffer()).push(
                distorted.buffer(),
            ),
            status == 0 <==> r is Ok,
            r matches Err(e) ==> e matches VmafError::ReadFrame(i, f) && i == request.spec_index()
                && f.spec_errno() == errno_of(status),
    {
        let reference = reference.consume();
        let distorted = distorted.consume();
        self.transferred = Ghost(self.transferred@.push(reference.buffer()).push(distorted.buffer()));
        match FFIError::check_err(status) {
            Ok(()) => Ok(()),
            Err(e) => Err(VmafError::ReadFrame(request.index(), e)),
        }
    }

    /// Ends the ingestion phase, given the engine's status for the
    /// end-of-stream signal: only a flushed session hands out scores. A failure
    /// status is `ClearFrame` with its error.
    pub fn flush(self, status: i32) -> (r: Result<Vmaf<GetScores>, VmafError>)
        ensures
            status == 0 <==> r is Ok,
            r matches Ok(v) ==> v.spec_context() == self.spec_context() && v.transferred()
                == self.transferred(),
            r matches Err(e) ==> e matches VmafError::ClearFrame(f) && f.spec_errno() == errno_of(
                status,
            ),
    {
        match FFIError::check_err(status) {
            Ok(()) => Ok(Vmaf { context: self.context, transferred: self.transferred, phase: PhantomData }),
            Err(e) => Err(VmafError::ClearFrame(e)),
        }
    }
}

impl Vmaf<GetScores> {
    /// Interprets the engine's status for reading the score of the frame at
    /// `index`: a failure is `Model(GetScoreIndex)` with that index.
    pub fn get_score_at_index(&self, model: &Model, index: u32, status: i32) -> (r: Result<
        (),
        VmafError,
    >)
        ensures
            status == 0 <==> r is Ok,
            r matches Err(e) ==> e matches VmafError::Model(VmafScoringError::GetScoreIndex(id, i))
                && i == index && identifier_view(id) == model.spec_version(),
    {
        match model.get_score_at_index(index, status) {
            Ok(()) => Ok(()),
            Err(e) => Err(VmafError::Model(e)),
        }
    }

    /// Interprets the engine's status for reading a score pooled by `method`
    /// over the frames `index_low..=index_high`: a failure is `Model(GetScore)`.
    /// The method and the range are the engine's to apply and to refuse, so the
    /// outcome depends on its status alone.
    pub fn get_score_pooled(
        &self,
        model: &Model,
        method: PoolingMethod,
        index_low: u32,
        index_high: u32,
        status: i32,
    ) -> (r: Result<(), VmafError>)
        ensures
            status == 0 <==> r is Ok,
            r matches Err(e) ==> e matches VmafError::Model(VmafScoringError::GetScore(id))
                && identifier_view(id) == model.spec_version(),
    {
        match model.get_score_pooled(status) {
            Ok(()) => Ok(()),
            Err(e) => Err(VmafError::Model(e)),
        }
    }
}

/// How many times buffer `b` occurs among the buffers handed to the engine,
/// that is, how many releases of it the engine makes.
pub open spec fn engine_releases(transferred: Seq<u64>, b: u64) -> nat
    decreases transferred.len(),
{
    if transferred.len() == 0 {
        0
    } else {
        engine_releases(transferred.drop_last(), b) + if transferred.last() == b {
            1nat
        } else {
            0nat
        }
    }
}

/// Each native buffer is released exactly once, whether or not its picture is
/// consumed. Before a pair goes to the engine, a buffer not handed over yet is
/// released by its owning picture alone; once `read_pictures` has added it to
/// the engine's buffers, the engine releases it and the consumed picture that
/// describes it releases nothing.
pub proof fn lemma_release_exactly_once(
    before: Seq<u64>,
    after: Seq<u64>,
    reference: Picture,
    distorted: Picture,
    consumed: Picture<Consumed>,
)
    requires
        after == before.push(reference.buffer()).push(distorted.buffer()),
        reference.buffer() != distorted.buffer(),
        engine_releases(before, reference.buffer()) == 0,
        consumed.buffer() == reference.buffer(),
    ensures
        reference.drop_releases() + engine_releases(before, reference.buffer()) == 1,
        consumed.drop_releases() + engine_releases(after, reference.buffer()) == 1,
        consumed.drop_releases() == 0,
{
    let b = reference.buffer();
    let mid = before.push(b);
    assert(mid.drop_last() =~= before);
    assert(after.drop_last() =~= mid);
    assert(engine_releases(mid, b) == 1);
    assert(engine_releases(after, b) == 1);
}

} // verus!
