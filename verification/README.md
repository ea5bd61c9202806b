# resdet

Verified Rust bindings to libresdet, the C library that detects upscaled images.

- `src/` is the verified library (Verus). It holds everything that is decided around the
  calls into libresdet: status codes and errors with their texts, C strings going in and
  out, the handles of parameters, methods and analysis contexts, the walk over the method table, how a detection report
  becomes a result, the size checks made before a detection, and the steps of a one-frame
  analysis as the Python module runs it. Each call into libresdet is a closure that the
  caller supplies, so every function is verified for whatever the C side answers, and its contract lets it
  call the C side only once the checks that guard that call have passed.
- `app/` is the unverified shell: the C declarations, the safe Rust API that makes the
  calls (`safe`), and the Python module built with pyo3 (`python`). Floating-point work
  (normalising samples, range checks on `f32` values, formatting confidences) stays there.
- `tests/` exercises the library with closures that stand in for libresdet.
