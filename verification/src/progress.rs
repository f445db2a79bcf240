use vstd::prelude::*;
use vstd::arithmetic::div_mod::{lemma_div_is_ordered, lemma_div_multiples_vanish};

verus! {

/// Step progress and overall percentages are carried in basis points:
/// 10_000 stands for a fully completed step, and for 100%.
pub const PROGRESS_SCALE: u32 = 10000;

/// One structured progress record streamed to the presentation collaborator.
/// `step_progress` and `overall_percent` are in basis points of one step and
/// of the whole run respectively.
pub struct TaskProgressPayload {
    pub version: u32,
    pub steps_total: u32,
    pub step: u32,
    pub step_name: String,
    pub step_progress: u32,
    pub overall_percent: u32,
    pub detail: Option<String>,
    pub downloaded_bytes: Option<u64>,
    pub total_bytes: Option<u64>,
    pub extracted_files: Option<u64>,
    pub total_files: Option<u64>,
}

/// The single terminal success record of a pipeline run.
pub struct TaskFinishedPayload {
    pub version: u32,
    pub path: String,
}

/// The single terminal failure record of a pipeline run.
pub struct TaskErrorPayload {
    pub version: u32,
    pub message: String,
}

pub open spec fn spec_clamped_step(step: u32, steps_total: u32) -> int {
    if step < 1 {
        1
    } else if step > steps_total {
        steps_total as int
    } else {
        step as int
    }
}

pub open spec fn spec_clamped_progress(p: u32) -> int {
    if p > PROGRESS_SCALE {
        PROGRESS_SCALE as int
    } else {
        p as int
    }
}

/// The global progress mapping: completed steps count in full, the current
/// step contributes its own fraction, and the sum is scaled to basis points
/// of the whole run.
pub open spec fn spec_overall(step: u32, step_progress: u32, steps_total: u32) -> int {
    ((spec_clamped_step(step, steps_total) - 1) * (PROGRESS_SCALE as int) + spec_clamped_progress(
        step_progress,
    )) / (steps_total as int)
}

/// Maps a step number and its fractional progress to overall run progress,
/// both in basis points.
pub fn overall_from_step(step: u32, step_progress: u32, steps_total: u32) -> (r: u32)
    requires
        steps_total >= 1,
    ensures
        r == spec_overall(step, step_progress, steps_total),
{
    let s: u64 = if step < 1 {
        1
    } else if step > steps_total {
        steps_total as u64
    } else {
        step as u64
    };
    let p: u64 = if step_progress > PROGRESS_SCALE {
        PROGRESS_SCALE as u64
    } else {
        step_progress as u64
    };
    let num: u64 = (s - 1) * (PROGRESS_SCALE as u64) + p;
    let q: u64 = num / (steps_total as u64);
    proof {
        assert(num as int <= (steps_total as int) * (PROGRESS_SCALE as int)) by (nonlinear_arith)
            requires
                s as int <= steps_total as int,
                p as int <= PROGRESS_SCALE as int,
                s >= 1,
                num as int == (s as int - 1) * (PROGRESS_SCALE as int) + p as int,
        ;
        lemma_div_multiples_vanish(PROGRESS_SCALE as int, steps_total as int);
        lemma_div_is_ordered(
            num as int,
            (steps_total as int) * (PROGRESS_SCALE as int),
            steps_total as int,
        );
    }
    q as u32
}

/// For a fixed step, overall progress never decreases as the step's own
/// progress grows; an unstarted first step maps to 0 and a finished last step
/// maps to 100%.
pub proof fn lemma_overall_monotonic(step: u32, p1: u32, p2: u32, steps_total: u32)
    requires
        steps_total >= 1,
        p1 <= p2,
    ensures
        spec_overall(step, p1, steps_total) <= spec_overall(step, p2, steps_total),
        spec_overall(1, 0, steps_total) == 0,
        spec_overall(steps_total, PROGRESS_SCALE, steps_total) == PROGRESS_SCALE,
{
    let t = steps_total as int;
    let base = (spec_clamped_step(step, steps_total) - 1) * (PROGRESS_SCALE as int);
    lemma_div_is_ordered(base + spec_clamped_progress(p1), base + spec_clamped_progress(p2), t);
    assert(spec_overall(1, 0, steps_total) == 0) by {
        assert(spec_clamped_step(1, steps_total) == 1);
        vstd::arithmetic::div_mod::lemma_basic_div(0, t);
    }
    assert(spec_overall(steps_total, PROGRESS_SCALE, steps_total) == PROGRESS_SCALE) by {
        assert((t - 1) * (PROGRESS_SCALE as int) + PROGRESS_SCALE as int == t * (
        PROGRESS_SCALE as int)) by (nonlinear_arith);
        lemma_div_multiples_vanish(PROGRESS_SCALE as int, t);
    }
}

/// Builds one progress record, computing the overall percentage from the
/// step position.
pub fn progress_record(
    version: u32,
    steps_total: u32,
    step: u32,
    step_name: &str,
    step_progress: u32,
    detail: Option<String>,
    downloaded_bytes: Option<u64>,
    total_bytes: Option<u64>,
    extracted_files: Option<u64>,
    total_files: Option<u64>,
) -> (p: TaskProgressPayload)
    requires
        steps_total >= 1,
    ensures
        p.version == version,
        p.steps_total == steps_total,
        p.step == step,
        p.step_name@ == step_name@,
        p.step_progress == step_progress,
        p.overall_percent == spec_overall(step, step_progress, steps_total),
        p.detail == detail,
        p.downloaded_bytes == downloaded_bytes,
        p.total_bytes == total_bytes,
        p.extracted_files == extracted_files,
        p.total_files == total_files,
{
    TaskProgressPayload {
        version,
        steps_total,
        step,
        step_name: step_name.to_owned(),
        step_progress,
        overall_percent: overall_from_step(step, step_progress, steps_total),
        detail,
        downloaded_bytes,
        total_bytes,
        extracted_files,
        total_files,
    }
}

/// The fraction `done / total` in basis points, clamped to at most one whole;
/// an empty task counts as already complete.
pub open spec fn spec_fraction_bp(done: u64, total: u64) -> int {
    if total == 0 {
        PROGRESS_SCALE as int
    } else if done >= total {
        PROGRESS_SCALE as int
    } else {
        (done as int) * (PROGRESS_SCALE as int) / (total as int)
    }
}

/// Converts a done/total item count into step progress in basis points.
pub fn fraction_bp(done: u64, total: u64) -> (r: u32)
    ensures
        r == spec_fraction_bp(done, total),
{
    if total == 0 || done >= total {
        return PROGRESS_SCALE;
    }
    proof {
        assert((done as int) * (PROGRESS_SCALE as int) <= 18446744073709551615int * 10000int)
            by (nonlinear_arith)
            requires
                done as int <= 18446744073709551615int,
        ;
    }
    let num: u128 = (done as u128) * (PROGRESS_SCALE as u128);
    let q: u128 = num / (total as u128);
    proof {
        assert((done as int) * (PROGRESS_SCALE as int) <= (total as int) * (
        PROGRESS_SCALE as int)) by (nonlinear_arith)
            requires
                done as int <= total as int,
        ;
        lemma_div_multiples_vanish(PROGRESS_SCALE as int, total as int);
        lemma_div_is_ordered(
            (done as int) * (PROGRESS_SCALE as int),
            (total as int) * (PROGRESS_SCALE as int),
            total as int,
        );
    }
    q as u32
}

/// Converts downloaded/total bytes into step progress in basis points; with
/// the total unknown or zero the fraction is 0, as no estimate exists yet.
pub fn byte_fraction_bp(downloaded: u64, total: Option<u64>) -> (r: u32)
    ensures
        (total is None || total->0 == 0) ==> r == 0,
        total matches Some(t) ==> (t > 0 ==> r == spec_fraction_bp(downloaded, t)),
{
    match total {
        None => 0,
        Some(t) => {
            if t == 0 {
                0
            } else {
                fraction_bp(downloaded, t)
            }
        },
    }
}

} // verus!
