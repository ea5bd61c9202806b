//! Candidate resolutions that a detection reports, and how a raw report becomes a result.
use vstd::prelude::*;
use crate::error::{ResdetError, RDEOK, error_of_code};

verus! {

/// One candidate resolution: the size in pixels along one axis, and the bit pattern of
/// the `f32` confidence that libresdet gives it.
#[derive(Debug, Clone, Copy, PartialEq, Eq, Structural)]
pub struct RDResolution {
    pub index: usize,
    pub confidence_bits: u32,
}

/// What a detection call hands back from the C side: its status code and the two lists of
/// candidates, `None` where the C side gave a null list.
pub struct RawDetection {
    pub status: i32,
    pub widths: Option<Vec<RDResolution>>,
    pub heights: Option<Vec<RDResolution>>,
}

/// Result of resolution detection: candidates for the width and for the height, best first.
#[derive(Debug, Clone)]
pub struct DetectionResult {
    pub width_resolutions: Vec<RDResolution>,
    pub height_resolutions: Vec<RDResolution>,
}

/// The candidates of an optional list: none when the list is missing.
pub open spec fn candidates(list: Option<Vec<RDResolution>>) -> Seq<RDResolution> {
    match list {
        Some(v) => v@,
        None => Seq::empty(),
    }
}

/// What a raw report comes to: the error of its status code unless that is `RDEOK`, else the
/// candidates it lists.
pub open spec fn outcome_matches(raw: RawDetection, res: Result<DetectionResult, ResdetError>) -> bool {
    if raw.status == RDEOK {
        &&& res is Ok
        &&& res->Ok_0.width_resolutions@ == candidates(raw.widths)
        &&& res->Ok_0.height_resolutions@ == candidates(raw.heights)
    } else {
        res == Err::<DetectionResult, ResdetError>(error_of_code(raw.status))
    }
}

/// The first element of a list, if there is one.
pub open spec fn first_of(s: Seq<RDResolution>) -> Option<RDResolution> {
    if s.len() > 0 {
        Some(s[0])
    } else {
        None
    }
}

fn take_candidates(list: Option<Vec<RDResolution>>) -> (res: Vec<RDResolution>)
    ensures
        res@ == candidates(list),
{
    match list {
        Some(v) => v,
        None => Vec::new(),
    }
}

/// Turns what a detection call handed back into its result.
pub fn detection_outcome(raw: RawDetection) -> (res: Result<DetectionResult, ResdetError>)
    ensures
        outcome_matches(raw, res),
        res is Ok <==> raw.status == 0,
        raw.status == 0 && raw.widths is Some ==> res->Ok_0.width_resolutions@ == raw.widths->0@,
        raw.status == 0 && raw.widths is None ==> res->Ok_0.width_resolutions@.len() == 0,
        raw.status == 0 && raw.heights is Some ==> res->Ok_0.height_resolutions@ == raw.heights->0@,
        raw.status == 0 && raw.heights is None ==> res->Ok_0.height_resolutions@.len() == 0,
{
    if raw.status != RDEOK {
        return Err(ResdetError::from(raw.status));
    }
    let RawDetection { status: _, widths, heights } = raw;
    Ok(DetectionResult {
        width_resolutions: take_candidates(widths),
        height_resolutions: take_candidates(heights),
    })
}

/// Law: a successful report becomes a result that holds exactly the lists the C side
/// reported, with every candidate in its place (no list where it reported none), and a
/// failing report becomes the error its status stands for.
pub proof fn lemma_outcome_keeps_report(raw: RawDetection, res: Result<DetectionResult, ResdetError>)
    requires
        outcome_matches(raw, res),
    ensures
        res is Ok <==> raw.status == 0,
        raw.status != 0 ==> res == Err::<DetectionResult, ResdetError>(error_of_code(raw.status)),
        raw.status == 0 ==> match raw.widths {
            Some(v) => res->Ok_0.width_resolutions@ == v@,
            None => res->Ok_0.width_resolutions@.len() == 0,
        },
        raw.status == 0 ==> match raw.heights {
            Some(v) => res->Ok_0.height_resolutions@ == v@,
            None => res->Ok_0.height_resolutions@.len() == 0,
        },
{
}

impl DetectionResult {
    /// Get the best guess for width
    pub fn best_width(&self) -> (res: Option<&RDResolution>)
        ensures
            match res {
                Some(r) => first_of(self.width_resolutions@) == Some(*r),
                None => first_of(self.width_resolutions@) is None,
            },
            res is None <==> self.width_resolutions@.len() == 0,
            res matches Some(r) ==> *r == self.width_resolutions@[0],
    {
        if self.width_resolutions.len() > 0 {
            Some(&self.width_resolutions[0])
        } else {
            None
        }
    }

    /// Get the best guess for height
    pub fn best_height(&self) -> (res: Option<&RDResolution>)
        ensures
            match res {
                Some(r) => first_of(self.height_resolutions@) == Some(*r),
                None => first_of(self.height_resolutions@) is None,
            },
            res is None <==> self.height_resolutions@.len() == 0,
            res matches Some(r) ==> *r == self.height_resolutions@[0],
    {
        if self.height_resolutions.len() > 0 {
            Some(&self.height_resolutions[0])
        } else {
            None
        }
    }
}

} // verus!
