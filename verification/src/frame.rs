//! Checks that frame data handed in for analysis has the size its dimensions call for.
use vstd::prelude::*;
use vstd::string::*;
use crate::decimal::{decimal, push_decimal};

verus! {

/// Why frame data cannot be analysed, found before any sample is looked at.
#[derive(Debug, Clone, Copy, PartialEq, Eq, Structural)]
pub enum FrameError {
    /// `width * height` does not fit in a `usize`.
    SizeOverflow,
    /// The data holds `len` samples where `width * height`, that is `expected`, were due.
    LengthMismatch { len: usize, width: usize, height: usize, expected: usize },
}

/// What checking `len` samples against `width` by `height` comes to.
pub open spec fn frame_check(len: usize, width: usize, height: usize) -> Result<usize, FrameError> {
    if width * height > usize::MAX {
        Err(FrameError::SizeOverflow)
    } else if len != width * height {
        Err(FrameError::LengthMismatch { len, width, height, expected: (width * height) as usize })
    } else {
        Ok(len)
    }
}

/// Checks that frame data of `len` samples fits a `width` by `height` frame, and gives the
/// number of samples.
pub fn check_frame_size(len: usize, width: usize, height: usize) -> (res: Result<usize, FrameError>)
    ensures
        res == frame_check(len, width, height),
        res is Ok <==> (width as int) * (height as int) <= usize::MAX && len as int == (width as int) * (height as int),
        res is Ok ==> res->Ok_0 == len,
        res == Err::<usize, FrameError>(FrameError::SizeOverflow) <==> (width as int) * (height as int) > usize::MAX,
{
    let expected = match width.checked_mul(height) {
        Some(expected) => expected,
        None => return Err(FrameError::SizeOverflow),
    };
    if len != expected {
        return Err(FrameError::LengthMismatch { len, width, height, expected });
    }
    Ok(len)
}

/// Law: the frame check accepts exactly the frames whose sample count is `width * height`
/// and fits in a `usize`, reports overflow exactly when `width * height` does not fit, and
/// otherwise reports the mismatch with the count that was due.
pub proof fn lemma_frame_check_accepts_exact_size(len: usize, width: usize, height: usize)
    ensures
        frame_check(len, width, height) is Ok <==> (width as int) * (height as int) <= usize::MAX
            && len as int == (width as int) * (height as int),
        frame_check(len, width, height) is Ok ==> frame_check(len, width, height)->Ok_0 == len,
        frame_check(len, width, height) == Err::<usize, FrameError>(FrameError::SizeOverflow)
            <==> (width as int) * (height as int) > usize::MAX,
        (width as int) * (height as int) <= usize::MAX && len as int != (width as int) * (height as int)
            ==> frame_check(len, width, height) == Err::<usize, FrameError>(FrameError::LengthMismatch {
            len,
            width,
            height,
            expected: ((width as int) * (height as int)) as usize,
        }),
{
}

/// The text that reports a frame error.
pub open spec fn frame_error_message(e: FrameError) -> Seq<char> {
    match e {
        FrameError::SizeOverflow => "Width * Height overflowed"@,
        FrameError::LengthMismatch { len, width, height, expected } =>
            "Frame data length ("@ + decimal(len as nat) + ") does not match expected size (width: "@
                + decimal(width as nat) + ", height: "@ + decimal(height as nat) + ", expected: "@
                + decimal(expected as nat) + ")"@,
    }
}

impl FrameError {
    /// The text that reports this error, with the numbers in decimal.
    pub fn message(&self) -> (res: String)
        ensures
            res@ == frame_error_message(*self),
    {
        match self {
            FrameError::SizeOverflow => String::from_str("Width * Height overflowed"),
            FrameError::LengthMismatch { len, width, height, expected } => {
                let mut text = String::from_str("Frame data length (");
                push_decimal(&mut text, *len as u64);
                text.append(") does not match expected size (width: ");
                push_decimal(&mut text, *width as u64);
                text.append(", height: ");
                push_decimal(&mut text, *height as u64);
                text.append(", expected: ");
                push_decimal(&mut text, *expected as u64);
                text.append(")");
                text
            },
        }
    }
}

} // verus!
