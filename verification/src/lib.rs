//! Safe access to libresdet, the detector of upscaled images.
//!
//! The C library does the image analysis; this crate holds what is decided around its
//! calls: how status codes become errors, how strings cross the boundary, which handles are
//! passed on, how reports become results, and the checks made before a call. Each call into
//! the C library is made by a closure that the caller supplies.
#![allow(unused_imports)]

use vstd::prelude::*;
use crate::cstring::{bytes_view, decode_c_string, decoded_c_string, string_result_view};

pub mod analysis;
pub mod binding;
pub mod cstring;
pub mod decimal;
pub mod detection;
pub mod error;
pub mod frame;
pub mod method;
pub mod parameters;

pub use crate::analysis::{detect, Analysis};
pub use crate::detection::{DetectionResult, RDResolution, RawDetection};
pub use crate::error::ResdetError;
pub use crate::method::Method;
pub use crate::parameters::Parameters;

verus! {

/// Get the libresdet version string. `read` hands back the bytes of the version string,
/// `None` where the C library returned a null pointer.
pub fn lib_version<F: Fn() -> Option<Vec<u8>>>(read: F) -> (res: Result<String, ResdetError>)
    requires
        read.requires(()),
    ensures
        exists|raw: Option<Vec<u8>>|
            #[trigger] read.ensures((), raw) && string_result_view(res) == decoded_c_string(bytes_view(raw)),
{
    decode_c_string(read())
}

} // verus!
