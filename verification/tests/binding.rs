use std::cell::Cell;

use resdet::binding::{analyze_frame, AnalyzeError, DetectedResolution, DetectionResult, Threshold};
use resdet::detection::DetectionResult as Detection;
use resdet::error::RDEOK;
use resdet::frame::{check_frame_size, FrameError};
use resdet::{RDResolution, RawDetection, ResdetError};

fn report() -> RawDetection {
    RawDetection {
        status: RDEOK,
        widths: Some(vec![RDResolution { index: 4, confidence_bits: 11 }]),
        heights: Some(vec![RDResolution { index: 2, confidence_bits: 12 }, RDResolution { index: 1, confidence_bits: 13 }]),
    }
}

#[test]
fn frame_size_checks() {
    assert_eq!(check_frame_size(12, 3, 4), Ok(12));
    assert_eq!(
        check_frame_size(11, 3, 4),
        Err(FrameError::LengthMismatch { len: 11, width: 3, height: 4, expected: 12 })
    );
    assert_eq!(check_frame_size(0, usize::MAX, 2), Err(FrameError::SizeOverflow));
}

#[test]
fn frame_messages() {
    assert_eq!(FrameError::SizeOverflow.message(), "Width * Height overflowed");
    assert_eq!(
        FrameError::LengthMismatch { len: 11, width: 3, height: 4, expected: 12 }.message(),
        "Frame data length (11) does not match expected size (width: 3, height: 4, expected: 12)"
    );
}

#[test]
fn analyze_runs_all_steps_in_order() {
    let log = Cell::new(Vec::new());
    let push = |s: String| {
        let mut v = log.take();
        v.push(s);
        log.set(v);
    };
    let res = analyze_frame(
        7,
        Some(Threshold { bits: 0.25f32.to_bits(), in_unit_range: true }),
        6,
        3,
        2,
        true,
        || {
            push("alloc".to_string());
            0x10
        },
        |p, b| {
            push(format!("threshold {} {}", p, f32::from_bits(b)));
            RDEOK
        },
        |p, r| {
            push(format!("range {} {}", p, r));
            RDEOK
        },
        |w, h, m, p| {
            push(format!("detect {} {} {} {}", w, h, m, p));
            report()
        },
    )
    .unwrap();
    assert_eq!(
        log.take(),
        vec!["alloc", "threshold 16 0.25", "range 16 7", "detect 3 2 0 16"]
    );
    assert_eq!(res.widths(), vec![DetectedResolution { size: 4, confidence_bits: 11 }]);
    assert_eq!(res.best_height(), Some(DetectedResolution { size: 2, confidence_bits: 12 }));
}

#[test]
fn analyze_failures_in_order() {
    let ok_report = |_: usize, _: usize, _: usize, _: usize| report();
    assert_eq!(
        analyze_frame(1, None, 4, 2, 2, true, || 0, |_, _| RDEOK, |_, _| RDEOK, ok_report).err(),
        Some(AnalyzeError::Library(ResdetError::OutOfMemory))
    );
    assert_eq!(
        analyze_frame(1, Some(Threshold { bits: 2.0f32.to_bits(), in_unit_range: false }), 3, 2, 2, false, || 1, |_, _| RDEOK, |_, _| RDEOK, ok_report).err(),
        Some(AnalyzeError::ThresholdOutOfRange)
    );
    assert_eq!(
        analyze_frame(1, Some(Threshold { bits: 0, in_unit_range: true }), 4, 2, 2, true, || 1, |_, _| 6, |_, _| RDEOK, ok_report).err(),
        Some(AnalyzeError::Library(ResdetError::Param))
    );
    assert_eq!(
        analyze_frame(1, None, 3, 2, 2, false, || 1, |_, _| RDEOK, |_, _| RDEOK, ok_report).err(),
        Some(AnalyzeError::Frame(FrameError::LengthMismatch { len: 3, width: 2, height: 2, expected: 4 }))
    );
    assert_eq!(
        analyze_frame(1, None, 4, 2, 2, false, || 1, |_, _| RDEOK, |_, _| RDEOK, ok_report).err(),
        Some(AnalyzeError::SampleOutOfRange)
    );
    assert_eq!(
        analyze_frame(1, None, 4, 2, 2, true, || 1, |_, _| RDEOK, |_, _| 6, ok_report).err(),
        Some(AnalyzeError::Library(ResdetError::Param))
    );
    assert_eq!(
        analyze_frame(1, None, 4, 2, 2, true, || 1, |_, _| RDEOK, |_, _| RDEOK, |_, _, _, _| RawDetection { status: 2, widths: None, heights: None }).err(),
        Some(AnalyzeError::Library(ResdetError::Internal))
    );
}

#[test]
fn analyze_error_texts() {
    assert_eq!(AnalyzeError::ThresholdOutOfRange.message(), "threshold must be between 0.0 and 1.0");
    assert_eq!(AnalyzeError::SampleOutOfRange.message(), "Frame data contains values outside the range [0.0, 1.0]");
    assert_eq!(AnalyzeError::Frame(FrameError::SizeOverflow).message(), "Width * Height overflowed");
    assert_eq!(AnalyzeError::Library(ResdetError::Unknown(-3)).message(), "Unknown error: -3");
    assert!(AnalyzeError::SampleOutOfRange.is_value_error());
    assert!(!AnalyzeError::Library(ResdetError::Internal).is_value_error());
}

#[test]
fn binding_result_keeps_every_candidate() {
    let detection = Detection {
        width_resolutions: vec![RDResolution { index: 9, confidence_bits: 1 }, RDResolution { index: 8, confidence_bits: 2 }],
        height_resolutions: vec![],
    };
    let shown = DetectionResult::from_detection(&detection);
    assert_eq!(
        shown.widths(),
        vec![DetectedResolution { size: 9, confidence_bits: 1 }, DetectedResolution { size: 8, confidence_bits: 2 }]
    );
    assert_eq!(shown.best_width(), Some(DetectedResolution { size: 9, confidence_bits: 1 }));
    assert!(shown.heights().is_empty());
    assert_eq!(shown.best_height(), None);
}

#[test]
fn rejected_inputs_never_reach_the_library() {
    let calls = Cell::new(0u32);
    let count = || calls.set(calls.get() + 1);
    let bad_threshold = Some(Threshold { bits: 1.5f32.to_bits(), in_unit_range: false });
    let res = analyze_frame(
        1,
        bad_threshold,
        3,
        2,
        2,
        true,
        || 1,
        |_, _| {
            count();
            RDEOK
        },
        |_, _| {
            count();
            RDEOK
        },
        |_, _, _, _| {
            count();
            report()
        },
    );
    assert_eq!(res.err(), Some(AnalyzeError::ThresholdOutOfRange));
    assert_eq!(calls.get(), 0);
    let res = analyze_frame(
        1,
        None,
        5,
        2,
        2,
        true,
        || 1,
        |_, _| RDEOK,
        |_, _| {
            count();
            RDEOK
        },
        |_, _, _, _| {
            count();
            report()
        },
    );
    assert!(matches!(res, Err(AnalyzeError::Frame(_))));
    assert_eq!(calls.get(), 0);
}

#[test]
fn failed_library_step_stops_the_analysis() {
    let later = Cell::new(0u32);
    let res = analyze_frame(
        1,
        Some(Threshold { bits: 0, in_unit_range: true }),
        4,
        2,
        2,
        true,
        || 1,
        |_, _| 6,
        |_, _| {
            later.set(later.get() + 1);
            RDEOK
        },
        |_, _, _, _| {
            later.set(later.get() + 1);
            report()
        },
    );
    assert_eq!(res.err(), Some(AnalyzeError::Library(ResdetError::Param)));
    assert_eq!(later.get(), 0);
    let res = analyze_frame(
        1,
        None,
        4,
        2,
        2,
        true,
        || 1,
        |_, _| RDEOK,
        |_, _| 6,
        |_, _, _, _| {
            later.set(later.get() + 1);
            report()
        },
    );
    assert_eq!(res.err(), Some(AnalyzeError::Library(ResdetError::Param)));
    assert_eq!(AnalyzeError::Library(ResdetError::Param).message(), "Invalid parameter");
    assert_eq!(later.get(), 0);
}
