use std::cell::Cell;

use resdet::error::{RDEOK, RDEPARAM};
use resdet::{Analysis, Method, Parameters, RDResolution, RawDetection, ResdetError};

#[test]
fn parameters_need_an_allocation() {
    assert!(matches!(Parameters::new(|| 0), Err(ResdetError::OutOfMemory)));
    let params = Parameters::new(|| 0x1000).unwrap();
    assert_eq!(params.as_ptr(), 0x1000);
}

#[test]
fn test_parameters() {
    let mut params = Parameters::new(|| 0x2000).unwrap();
    let seen = Cell::new((0usize, 0usize));
    assert!(params
        .set_range(100, |h, r| {
            seen.set((h, r));
            RDEOK
        })
        .is_ok());
    assert_eq!(seen.get(), (0x2000, 100));
    let bits = Cell::new(0u32);
    assert!(params
        .set_threshold(0.5f32.to_bits(), |_, b| {
            bits.set(b);
            RDEOK
        })
        .is_ok());
    assert_eq!(f32::from_bits(bits.get()), 0.5);
}

#[test]
fn parameter_failures_are_reported() {
    let mut params = Parameters::new(|| 8).unwrap();
    assert_eq!(params.set_range(0, |_, _| RDEPARAM), Err(ResdetError::Param));
    assert_eq!(params.set_threshold(0, |_, _| 99), Err(ResdetError::Unknown(99)));
    assert_eq!(params.as_ptr(), 8);
}

#[test]
fn method_by_name_looks_up_terminated_key() {
    let key = Cell::new(Vec::new());
    let method = Method::by_name("sinc", |k: &Vec<u8>| {
        key.set(k.clone());
        0x40
    })
    .unwrap();
    assert_eq!(key.take(), b"sinc\0".to_vec());
    assert_eq!(method.as_ptr(), 0x40);
}

#[test]
fn method_by_name_failures() {
    assert!(matches!(Method::by_name("nope", |_: &Vec<u8>| 0), Err(ResdetError::Invalid)));
    let called = Cell::new(false);
    assert!(matches!(
        Method::by_name("bad\0name", |_: &Vec<u8>| {
            called.set(true);
            1
        }),
        Err(ResdetError::Invalid)
    ));
    assert!(!called.get());
}

#[test]
fn method_name() {
    let method = Method::by_name("mag", |_: &Vec<u8>| 0x50).unwrap();
    assert_eq!(method.name(|h| if h == 0x50 { Some(b"mag".to_vec()) } else { None }).unwrap(), "mag");
    assert!(matches!(method.name(|_| None), Err(ResdetError::NullPointer)));
    assert!(matches!(method.name(|_| Some(vec![0xff])), Err(ResdetError::Utf8Error)));
}

#[test]
fn analysis_lifecycle() {
    let method = Method::by_name("sinc", |_: &Vec<u8>| 0x50).unwrap();
    let params = Parameters::new(|| 0x60).unwrap();
    let args = Cell::new((0usize, 0usize, 0usize, 0usize));
    let mut analysis = Analysis::new(640, 480, Some(&method), Some(&params), |m, w, h, p| {
        args.set((m, w, h, p));
        (0x70, RDEOK)
    })
    .unwrap();
    assert_eq!(args.get(), (0x50, 640, 480, 0x60));
    assert_eq!(analysis.as_ptr(), 0x70);
    assert_eq!(analysis.analyze(|h| if h == 0x70 { RDEOK } else { 1 }), Ok(()));
    assert_eq!(analysis.analyze(|_| 5), Err(ResdetError::TooBig));
    let result = analysis
        .results(|_| RawDetection {
            status: RDEOK,
            widths: Some(vec![RDResolution { index: 320, confidence_bits: 1 }]),
            heights: None,
        })
        .unwrap();
    assert_eq!(result.width_resolutions, vec![RDResolution { index: 320, confidence_bits: 1 }]);
    assert!(result.height_resolutions.is_empty());
}

#[test]
fn analysis_creation_failure() {
    assert!(matches!(Analysis::new(1, 1, None, None, |_, _, _, _| (0, 2)), Err(ResdetError::Internal)));
    let args = Cell::new((1usize, 0usize));
    let _ = Analysis::new(2, 3, None, None, |m, _, _, p| {
        args.set((m, p));
        (0, 0)
    });
    assert_eq!(args.get(), (0, 0));
}

#[test]
fn all_methods_in_table_order() {
    let asked = Cell::new(Vec::new());
    let table = [Some(0x100usize), Some(0x118), Some(0x130), None, Some(0x160)];
    let methods = Method::all(|i| {
        let mut v = asked.take();
        v.push(i);
        asked.set(v);
        table[i]
    });
    let handles: Vec<usize> = methods.iter().map(|m| m.as_ptr()).collect();
    assert_eq!(handles, vec![0x100, 0x118, 0x130]);
    assert_eq!(asked.take(), vec![0, 1, 2, 3]);
}

#[test]
fn all_methods_empty_or_null_entry() {
    assert!(Method::all(|_| None).is_empty());
    let methods = Method::all(|i| if i == 0 { Some(0x10) } else { Some(0) });
    assert_eq!(methods.len(), 1);
}
