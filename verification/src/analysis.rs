//! Running a detection: on one image at once, or on many images through an analysis context.
use vstd::prelude::*;
use crate::error::{ResdetError, error_of_code, status_of, status_result};
use crate::detection::{DetectionResult, RawDetection, detection_outcome, outcome_matches};
use crate::method::Method;
use crate::parameters::Parameters;

verus! {

/// The handle that stands for an optional method: null where there is none.
pub open spec fn method_handle(method: Option<&Method>) -> usize {
    match method {
        Some(m) => m.handle(),
        None => 0,
    }
}

/// The handle that stands for optional parameters: null where there are none.
pub open spec fn parameters_handle(params: Option<&Parameters>) -> usize {
    match params {
        Some(p) => p.handle(),
        None => 0,
    }
}

/// Law: a chosen method is handed on as its own handle and chosen parameters as theirs;
/// only a missing one becomes the null handle, which libresdet reads as its default.
pub proof fn lemma_handles_passed_on(method: Option<&Method>, params: Option<&Parameters>)
    ensures
        method matches Some(m) ==> method_handle(method) == m.handle(),
        method is None ==> method_handle(method) == 0,
        params matches Some(p) ==> parameters_handle(params) == p.handle(),
        params is None ==> parameters_handle(params) == 0,
{
}

fn method_ptr(method: Option<&Method>) -> (res: usize)
    ensures
        res == method_handle(method),
        method matches Some(m) ==> res == m.handle(),
        method is None ==> res == 0,
{
    match method {
        Some(m) => m.as_ptr(),
        None => 0,
    }
}

fn parameters_ptr(params: Option<&Parameters>) -> (res: usize)
    ensures
        res == parameters_handle(params),
        params matches Some(p) ==> res == p.handle(),
        params is None ==> res == 0,
{
    match params {
        Some(p) => p.as_ptr(),
        None => 0,
    }
}

/// Detect resolution from raw image data of `image_len` samples. An image whose length is not
/// `width * height` is `Invalid` and is never handed on. Otherwise `run` hands width, height
/// and the handles of the method and the parameters (null for the defaults) to libresdet, and
/// its report becomes the result.
pub fn detect<F: Fn(usize, usize, usize, usize) -> RawDetection>(
    image_len: usize,
    width: usize,
    height: usize,
    method: Option<&Method>,
    params: Option<&Parameters>,
    run: F,
) -> (res: Result<DetectionResult, ResdetError>)
    requires
        width * height <= usize::MAX,
        image_len == width * height ==> run.requires(
            (width, height, method_handle(method), parameters_handle(params)),
        ),
    ensures
        image_len != width * height ==> res == Err::<DetectionResult, ResdetError>(ResdetError::Invalid),
        image_len == width * height ==> exists|raw: RawDetection|
            #[trigger] run.ensures((width, height, method_handle(method), parameters_handle(params)), raw)
            && outcome_matches(raw, res),
{
    if image_len != width * height {
        return Err(ResdetError::Invalid);
    }
    let method_h = method_ptr(method);
    let params_h = parameters_ptr(params);
    let raw = run(width, height, method_h, params_h);
    detection_outcome(raw)
}

/// Analysis context for processing multiple images. The handle names the context that
/// libresdet created; it is never null.
pub struct Analysis {
    handle: usize,
}

impl Analysis {
    #[verifier::type_invariant]
    spec fn handle_is_set(self) -> bool {
        self.handle != 0
    }

    /// The handle of the context.
    pub closed spec fn handle(&self) -> usize {
        self.handle
    }

    /// Create a new analysis context. `create` hands the handle of the method, width, height
    /// and the handle of the parameters (null for the defaults) to libresdet, and returns the
    /// handle of the new context (0 where none was made) with the status code it reported.
    pub fn new<F: Fn(usize, usize, usize, usize) -> (usize, i32)>(
        width: usize,
        height: usize,
        method: Option<&Method>,
        params: Option<&Parameters>,
        create: F,
    ) -> (res: Result<Self, ResdetError>)
        requires
            create.requires((method_handle(method), width, height, parameters_handle(params))),
        ensures
            exists|out: (usize, i32)|
                #[trigger] create.ensures((method_handle(method), width, height, parameters_handle(params)), out)
                && (if out.0 == 0 {
                    res == Err::<Self, ResdetError>(error_of_code(out.1))
                } else {
                    res matches Ok(a) && a.handle() == out.0
                }),
    {
        let method_h = method_ptr(method);
        let params_h = parameters_ptr(params);
        let (h, error) = create(method_h, width, height, params_h);
        if h == 0 {
            return Err(ResdetError::from(error));
        }
        Ok(Analysis { handle: h })
    }

    /// Analyze an image. `run` hands the context's handle and the image to libresdet and
    /// returns its status code.
    pub fn analyze<F: Fn(usize) -> i32>(&mut self, run: F) -> (res: Result<(), ResdetError>)
        requires
            run.requires((old(self).handle(),)),
        ensures
            *final(self) == *old(self),
            exists|code: i32| #[trigger] run.ensures((old(self).handle(),), code) && res == status_of(code)
                && (res is Ok <==> code == 0),
    {
        let code = run(self.handle);
        status_result(code)
    }

    /// Get the detection results. `fetch` asks libresdet for the results of the context with
    /// the given handle.
    pub fn results<F: Fn(usize) -> RawDetection>(&self, fetch: F) -> (res: Result<DetectionResult, ResdetError>)
        requires
            fetch.requires((self.handle(),)),
        ensures
            exists|raw: RawDetection| #[trigger] fetch.ensures((self.handle(),), raw) && outcome_matches(raw, res),
    {
        detection_outcome(fetch(self.handle))
    }

    /// The handle of the context, never null.
    pub fn as_ptr(&self) -> (res: usize)
        ensures
            res == self.handle(),
            res != 0,
    {
        proof {
            use_type_invariant(self);
        }
        self.handle
    }
}

} // verus!
