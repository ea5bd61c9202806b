//! The logic behind the Python binding: its result types and the checks and calls that an
//! analysis of one frame goes through.
use vstd::prelude::*;
use vstd::string::*;
use crate::analysis::detect;
use crate::detection::{candidates, first_of, DetectionResult as Detection, RDResolution, RawDetection};
use crate::error::{error_message, error_of_code, ResdetError, RDEOK};
use crate::frame::{check_frame_size, frame_check, frame_error_message, FrameError};
use crate::parameters::Parameters;

verus! {

/// A detected resolution as the binding shows it: the size along one axis, and the bit
/// pattern of the `f32` confidence.
#[derive(Debug, Clone, Copy, PartialEq, Eq, Structural)]
pub struct DetectedResolution {
    pub size: usize,
    pub confidence_bits: u32,
}

/// A detection result as the binding shows it: candidate widths and heights, best first.
#[derive(Debug, Clone)]
pub struct DetectionResult {
    pub widths: Vec<DetectedResolution>,
    pub heights: Vec<DetectedResolution>,
}

/// How the binding shows one candidate.
pub open spec fn shown(r: RDResolution) -> DetectedResolution {
    DetectedResolution { size: r.index, confidence_bits: r.confidence_bits }
}

/// How the binding shows a list of candidates, in the same order.
pub open spec fn shown_all(s: Seq<RDResolution>) -> Seq<DetectedResolution> {
    s.map_values(|r: RDResolution| shown(r))
}

/// Law: the binding shows every candidate of a detection, in the same order, so its best
/// guess along an axis is the library's best guess, shown.
pub proof fn lemma_binding_keeps_best_guess(s: Seq<RDResolution>)
    ensures
        shown_all(s).len() == s.len(),
        forall|i: int| 0 <= i < s.len() ==> #[trigger] shown_all(s)[i] == shown(s[i]),
        (if shown_all(s).len() > 0 { Some(shown_all(s)[0]) } else { None::<DetectedResolution> })
            == (match first_of(s) {
            Some(r) => Some(shown(r)),
            None => None::<DetectedResolution>,
        }),
{
}

/// Law: the binding shows every candidate with the library's numbers: the same count, and
/// at each place the size is the candidate's index and the confidence bits are its own.
pub proof fn lemma_shown_keeps_numbers(s: Seq<RDResolution>)
    ensures
        shown_all(s).len() == s.len(),
        forall|i: int| 0 <= i < s.len() ==> {
            &&& #[trigger] shown_all(s)[i].size == s[i].index
            &&& shown_all(s)[i].confidence_bits == s[i].confidence_bits
        },
{
}

fn show_all(list: &Vec<RDResolution>) -> (res: Vec<DetectedResolution>)
    ensures
        res@ == shown_all(list@),
{
    let mut out: Vec<DetectedResolution> = Vec::new();
    let mut i: usize = 0;
    while i < list.len()
        invariant
            i <= list@.len(),
            out@ == shown_all(list@.subrange(0, i as int)),
        decreases list@.len() - i,
    {
        let r = list[i];
        out.push(DetectedResolution { size: r.index, confidence_bits: r.confidence_bits });
        i = i + 1;
        assert(list@.subrange(0, i as int).drop_last() =~= list@.subrange(0, i as int - 1));
        assert(out@ =~= shown_all(list@.subrange(0, i as int)));
    }
    assert(list@.subrange(0, list@.len() as int) =~= list@);
    out
}

fn copy_all(list: &Vec<DetectedResolution>) -> (res: Vec<DetectedResolution>)
    ensures
        res@ == list@,
{
    let mut out: Vec<DetectedResolution> = Vec::new();
    let mut i: usize = 0;
    while i < list.len()
        invariant
            i <= list@.len(),
            out@ == list@.subrange(0, i as int),
        decreases list@.len() - i,
    {
        out.push(list[i]);
        i = i + 1;
        assert(out@ =~= list@.subrange(0, i as int));
    }
    assert(list@.subrange(0, list@.len() as int) =~= list@);
    out
}

impl DetectionResult {
    /// The binding's view of a detection result: every candidate kept, in order.
    pub fn from_detection(value: &Detection) -> (res: Self)
        ensures
            res.widths@ == shown_all(value.width_resolutions@),
            res.heights@ == shown_all(value.height_resolutions@),
            res.widths@.len() == value.width_resolutions@.len(),
            res.heights@.len() == value.height_resolutions@.len(),
            forall|i: int| 0 <= i < res.widths@.len() ==> {
                &&& #[trigger] res.widths@[i].size == value.width_resolutions@[i].index
                &&& res.widths@[i].confidence_bits == value.width_resolutions@[i].confidence_bits
            },
            forall|i: int| 0 <= i < res.heights@.len() ==> {
                &&& #[trigger] res.heights@[i].size == value.height_resolutions@[i].index
                &&& res.heights@[i].confidence_bits == value.height_resolutions@[i].confidence_bits
            },
    {
        DetectionResult {
            widths: show_all(&value.width_resolutions),
            heights: show_all(&value.height_resolutions),
        }
    }

    /// The candidate widths, best first.
    pub fn widths(&self) -> (res: Vec<DetectedResolution>)
        ensures
            res@ == self.widths@,
    {
        copy_all(&self.widths)
    }

    /// The candidate heights, best first.
    pub fn heights(&self) -> (res: Vec<DetectedResolution>)
        ensures
            res@ == self.heights@,
    {
        copy_all(&self.heights)
    }

    /// The best candidate width, if there is one.
    pub fn best_width(&self) -> (res: Option<DetectedResolution>)
        ensures
            res == (if self.widths@.len() > 0 { Some(self.widths@[0]) } else { None::<DetectedResolution> }),
    {
        if self.widths.len() > 0 {
            Some(self.widths[0])
        } else {
            None
        }
    }

    /// The best candidate height, if there is one.
    pub fn best_height(&self) -> (res: Option<DetectedResolution>)
        ensures
            res == (if self.heights@.len() > 0 { Some(self.heights@[0]) } else { None::<DetectedResolution> }),
    {
        if self.heights.len() > 0 {
            Some(self.heights[0])
        } else {
            None
        }
    }
}

/// Why an analysis through the binding failed. The first three are the caller's values
/// (Python's `ValueError`); the last is libresdet's failure (Python's `RuntimeError`).
#[derive(Debug, Clone, Copy, PartialEq, Eq, Structural)]
pub enum AnalyzeError {
    ThresholdOutOfRange,
    Frame(FrameError),
    SampleOutOfRange,
    Library(ResdetError),
}

/// The text that reports an analysis error.
pub open spec fn analyze_error_message(e: AnalyzeError) -> Seq<char> {
    match e {
        AnalyzeError::ThresholdOutOfRange => "threshold must be between 0.0 and 1.0"@,
        AnalyzeError::Frame(f) => frame_error_message(f),
        AnalyzeError::SampleOutOfRange => "Frame data contains values outside the range [0.0, 1.0]"@,
        AnalyzeError::Library(l) => error_message(l),
    }
}

impl AnalyzeError {
    /// True for the errors that reject a value the caller handed in.
    pub fn is_value_error(&self) -> (res: bool)
        ensures
            res == !(*self is Library),
    {
        match self {
            AnalyzeError::Library(_) => false,
            _ => true,
        }
    }

    /// The text that reports this error.
    pub fn message(&self) -> (res: String)
        ensures
            res@ == analyze_error_message(*self),
    {
        match self {
            AnalyzeError::ThresholdOutOfRange => String::from_str("threshold must be between 0.0 and 1.0"),
            AnalyzeError::Frame(f) => f.message(),
            AnalyzeError::SampleOutOfRange => String::from_str("Frame data contains values outside the range [0.0, 1.0]"),
            AnalyzeError::Library(l) => l.message(),
        }
    }
}

/// A detection threshold as the binding receives it: the bit pattern of the `f32`, and
/// whether the value lies in `[0.0, 1.0]`.
#[derive(Debug, Clone, Copy, PartialEq, Eq, Structural)]
pub struct Threshold {
    pub bits: u32,
    pub in_unit_range: bool,
}

/// True when there is no threshold, or the one given lies in `[0.0, 1.0]`.
pub open spec fn threshold_accepted(threshold: Option<Threshold>) -> bool {
    match threshold {
        Some(t) => t.in_unit_range,
        None => true,
    }
}

/// True when every check made before the range is set passes: the threshold, the frame's
/// size and its samples. Only then is libresdet asked to set the range and to detect.
pub open spec fn checks_pass(
    threshold: Option<Threshold>,
    frame_len: usize,
    width: usize,
    height: usize,
    samples_in_range: bool,
) -> bool {
    &&& threshold_accepted(threshold)
    &&& frame_check(frame_len, width, height) is Ok
    &&& samples_in_range
}

/// True when no threshold was given, or when setting it in the parameters `h` can have
/// answered `RDEOK`.
pub open spec fn threshold_set<T: Fn(usize, u32) -> i32>(set_threshold: T, h: usize, threshold: Option<Threshold>) -> bool {
    match threshold {
        None => true,
        Some(t) => exists|code: i32| #[trigger] set_threshold.ensures((h, t.bits), code) && code == RDEOK,
    }
}

/// True when setting the range in the parameters `h` can have answered `RDEOK`.
pub open spec fn range_set<R: Fn(usize, usize) -> i32>(set_range: R, h: usize, range: usize) -> bool {
    exists|code: i32| #[trigger] set_range.ensures((h, range), code) && code == RDEOK
}

/// What an analysis comes to once the detection has run and reported `raw`.
pub open spec fn after_detection(raw: RawDetection, res: Result<DetectionResult, AnalyzeError>) -> bool {
    if raw.status == RDEOK {
        &&& res is Ok
        &&& res->Ok_0.widths@ == shown_all(candidates(raw.widths))
        &&& res->Ok_0.heights@ == shown_all(candidates(raw.heights))
    } else {
        res == Err::<DetectionResult, AnalyzeError>(AnalyzeError::Library(error_of_code(raw.status)))
    }
}

/// What an analysis comes to once the threshold, if any, is set in the parameters `p`: the
/// frame is checked, then the range is set, then the detection runs.
pub open spec fn after_threshold<R: Fn(usize, usize) -> i32, D: Fn(usize, usize, usize, usize) -> RawDetection>(
    p: usize,
    range: usize,
    frame_len: usize,
    width: usize,
    height: usize,
    samples_in_range: bool,
    set_range: R,
    run: D,
    res: Result<DetectionResult, AnalyzeError>,
) -> bool {
    match frame_check(frame_len, width, height) {
        Err(e) => res == Err::<DetectionResult, AnalyzeError>(AnalyzeError::Frame(e)),
        Ok(_) => if !samples_in_range {
            res == Err::<DetectionResult, AnalyzeError>(AnalyzeError::SampleOutOfRange)
        } else {
            exists|code: i32| #[trigger] set_range.ensures((p, range), code) && (if code != RDEOK {
                res == Err::<DetectionResult, AnalyzeError>(AnalyzeError::Library(error_of_code(code)))
            } else {
                exists|raw: RawDetection| #[trigger] run.ensures((width, height, 0usize, p), raw) && after_detection(raw, res)
            })
        },
    }
}

/// What an analysis comes to once libresdet has handed back the parameter handle `p`.
pub open spec fn after_parameters<T: Fn(usize, u32) -> i32, R: Fn(usize, usize) -> i32, D: Fn(usize, usize, usize, usize) -> RawDetection>(
    p: usize,
    range: usize,
    threshold: Option<Threshold>,
    frame_len: usize,
    width: usize,
    height: usize,
    samples_in_range: bool,
    set_threshold: T,
    set_range: R,
    run: D,
    res: Result<DetectionResult, AnalyzeError>,
) -> bool {
    if p == 0 {
        res == Err::<DetectionResult, AnalyzeError>(AnalyzeError::Library(ResdetError::OutOfMemory))
    } else {
        match threshold {
            None => after_threshold(p, range, frame_len, width, height, samples_in_range, set_range, run, res),
            Some(t) => if !t.in_unit_range {
                res == Err::<DetectionResult, AnalyzeError>(AnalyzeError::ThresholdOutOfRange)
            } else {
                exists|code: i32| #[trigger] set_threshold.ensures((p, t.bits), code) && (if code != RDEOK {
                    res == Err::<DetectionResult, AnalyzeError>(AnalyzeError::Library(error_of_code(code)))
                } else {
                    after_threshold(p, range, frame_len, width, height, samples_in_range, set_range, run, res)
                })
            },
        }
    }
}

/// Analyze one frame of `frame_len` samples of `width` by `height`, as the binding does: make
/// default parameters (`alloc`), set the threshold if one was given (`set_threshold`), check
/// the frame, set the range (`set_range`), then detect with the default method (`run`). The
/// first failure is the result, and libresdet is asked to set the threshold only when it is
/// accepted, to set the range only when every check has passed and the threshold (if any)
/// was set, and to detect only when, besides, the range was set.
/// `samples_in_range` says whether every sample lies in
/// `[0.0, 1.0]`; it is only consulted once the frame's size is right.
pub fn analyze_frame<A, T, R, D>(
    range: usize,
    threshold: Option<Threshold>,
    frame_len: usize,
    width: usize,
    height: usize,
    samples_in_range: bool,
    alloc: A,
    set_threshold: T,
    set_range: R,
    run: D,
) -> (res: Result<DetectionResult, AnalyzeError>) where
    A: Fn() -> usize,
    T: Fn(usize, u32) -> i32,
    R: Fn(usize, usize) -> i32,
    D: Fn(usize, usize, usize, usize) -> RawDetection,

    requires
        alloc.requires(()),
        forall|h: usize|
            alloc.ensures((), h) && h != 0 && threshold_accepted(threshold) && threshold is Some
                ==> #[trigger] set_threshold.requires((h, threshold->0.bits)),
        forall|h: usize|
            alloc.ensures((), h) && h != 0 && checks_pass(threshold, frame_len, width, height, samples_in_range)
                && threshold_set(set_threshold, h, threshold) ==> #[trigger] set_range.requires((h, range)),
        forall|h: usize|
            alloc.ensures((), h) && h != 0 && checks_pass(threshold, frame_len, width, height, samples_in_range)
                && threshold_set(set_threshold, h, threshold) && range_set(set_range, h, range)
                ==> #[trigger] run.requires((width, height, 0usize, h)),
    ensures
        exists|p: usize|
            #[trigger] alloc.ensures((), p) && after_parameters(
                p,
                range,
                threshold,
                frame_len,
                width,
                height,
                samples_in_range,
                set_threshold,
                set_range,
                run,
                res,
            ),
{
    let mut params = match Parameters::new(alloc) {
        Ok(params) => params,
        Err(e) => return Err(AnalyzeError::Library(e)),
    };
    match threshold {
        Some(t) => {
            if !t.in_unit_range {
                return Err(AnalyzeError::ThresholdOutOfRange);
            }
            match params.set_threshold(t.bits, set_threshold) {
                Ok(()) => {},
                Err(e) => return Err(AnalyzeError::Library(e)),
            }
        },
        None => {},
    }
    match check_frame_size(frame_len, width, height) {
        Ok(_) => {},
        Err(e) => return Err(AnalyzeError::Frame(e)),
    }
    if !samples_in_range {
        return Err(AnalyzeError::SampleOutOfRange);
    }
    match params.set_range(range, set_range) {
        Ok(()) => {},
        Err(e) => return Err(AnalyzeError::Library(e)),
    }
    match detect(frame_len, width, height, None, Some(&params), run) {
        Ok(detected) => Ok(DetectionResult::from_detection(&detected)),
        Err(e) => Err(AnalyzeError::Library(e)),
    }
}

} // verus!
